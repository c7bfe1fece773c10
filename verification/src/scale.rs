//! Exact scaling of window dimensions.
//!
//! The user interface reports its conversion factor as a binary64 number.
//! The host never rounds it: a factor is taken apart into sign, mantissa
//! and exponent, and a scaled length is the integer product of a base
//! length with that mantissa under the same exponent.

use vstd::prelude::*;

verus! {

/// Two to the 52nd power: the weight of the hidden bit of a binary64
/// mantissa, and the modulus of its fraction field.
pub const HIDDEN_BIT: u64 = 0x10_0000_0000_0000;

/// Two to the 63rd power: the sign bit of a binary64 pattern.
pub const SIGN_BIT: u64 = 0x8000_0000_0000_0000;

/// The exponent field of a binary64 pattern that marks infinities and NaNs.
pub const SPECIAL_EXPONENT: u64 = 0x7ff;

/// The fraction field of a binary64 pattern.
pub open spec fn fraction_field(bits: u64) -> u64 {
    bits % HIDDEN_BIT
}

/// The biased exponent field of a binary64 pattern.
pub open spec fn exponent_field(bits: u64) -> u64 {
    (bits / HIDDEN_BIT) % 0x800
}

/// A finite binary number: it denotes `mantissa × 2^exponent`, negated
/// when `negative` is set.
#[derive(Clone, Copy, Debug, PartialEq, Eq, Structural)]
pub struct Factor {
    pub negative: bool,
    pub mantissa: u64,
    pub exponent: i16,
}

/// A length scaled by a [`Factor`]: it denotes `mantissa × 2^exponent`,
/// negated when `negative` is set.
#[derive(Clone, Copy, Debug, PartialEq, Eq, Structural)]
pub struct Extent {
    pub negative: bool,
    pub mantissa: u128,
    pub exponent: i16,
}

impl Factor {
    /// The number that a binary64 pattern stands for, if it is finite.
    ///
    /// Subnormal patterns have no hidden bit and the least exponent;
    /// normal ones add the hidden bit to the fraction.
    pub open spec fn of_bits(bits: u64) -> Option<Factor> {
        if exponent_field(bits) == SPECIAL_EXPONENT {
            None
        } else if exponent_field(bits) == 0 {
            Some(
                Factor {
                    negative: bits >= SIGN_BIT,
                    mantissa: fraction_field(bits),
                    exponent: (-1074) as i16,
                },
            )
        } else {
            Some(
                Factor {
                    negative: bits >= SIGN_BIT,
                    mantissa: (HIDDEN_BIT + fraction_field(bits)) as u64,
                    exponent: (exponent_field(bits) - 1075) as i16,
                },
            )
        }
    }

    /// A factor is well formed when it is in the range of `of_bits`:
    /// its mantissa fits in 53 bits and its exponent is one that a
    /// binary64 number can have.
    pub open spec fn well_formed(&self) -> bool {
        &&& self.mantissa < 2 * HIDDEN_BIT
        &&& -1074 <= self.exponent <= 971
    }

    /// Whether the factor denotes a number greater than zero.
    pub open spec fn is_positive(&self) -> bool {
        !self.negative && self.mantissa > 0
    }

    /// Takes a binary64 pattern apart. Infinities and NaNs give `None`.
    pub fn from_bits(bits: u64) -> (factor: Option<Factor>)
        ensures
            factor == Factor::of_bits(bits),
            factor matches Some(f) ==> f.well_formed(),
    {
        let fraction: u64 = bits % HIDDEN_BIT;
        let biased: u64 = (bits / HIDDEN_BIT) % 0x800;
        let negative = bits >= SIGN_BIT;
        if biased == SPECIAL_EXPONENT {
            None
        } else if biased == 0 {
            Some(Factor { negative, mantissa: fraction, exponent: -1074 })
        } else {
            Some(Factor { negative, mantissa: HIDDEN_BIT + fraction, exponent: (biased as i16) - 1075 })
        }
    }

    /// The length `base` times this factor: the mantissas multiply, sign
    /// and exponent carry over, and nothing is rounded.
    pub open spec fn scaled(self, base: u32) -> Extent {
        Extent {
            negative: self.negative,
            mantissa: (base * self.mantissa) as u128,
            exponent: self.exponent,
        }
    }

    /// The length `base` scaled by this factor, without rounding.
    pub fn scale(&self, base: u32) -> (extent: Extent)
        ensures
            extent == self.scaled(base),
            extent.mantissa == base * self.mantissa,
    {
        assert(base * self.mantissa <= 0xffff_ffff * 0xffff_ffff_ffff_ffff) by (nonlinear_arith)
            requires
                0 <= base <= 0xffff_ffff,
                0 <= self.mantissa <= 0xffff_ffff_ffff_ffff,
        ;
        Extent {
            negative: self.negative,
            mantissa: (base as u128) * (self.mantissa as u128),
            exponent: self.exponent,
        }
    }
}

} // verus!
