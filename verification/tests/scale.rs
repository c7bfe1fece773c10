use ginkou_loader::scale::{Extent, Factor};

fn factor(value: f64) -> Option<Factor> {
    Factor::from_bits(value.to_bits())
}

#[test]
fn from_bits_of_one() {
    assert_eq!(factor(1.0), Some(Factor { negative: false, mantissa: 1 << 52, exponent: -52 }));
}

#[test]
fn from_bits_of_fractions() {
    assert_eq!(factor(0.5), Some(Factor { negative: false, mantissa: 1 << 52, exponent: -53 }));
    assert_eq!(factor(1.25), Some(Factor { negative: false, mantissa: 5 << 50, exponent: -52 }));
    assert_eq!(factor(0.95), Some(Factor { negative: false, mantissa: 0x1e666666666666, exponent: -53 }));
}

#[test]
fn from_bits_of_negative_numbers() {
    assert_eq!(factor(-2.0), Some(Factor { negative: true, mantissa: 1 << 52, exponent: -51 }));
    assert_eq!(factor(-0.0), Some(Factor { negative: true, mantissa: 0, exponent: -1074 }));
}

#[test]
fn from_bits_of_zero_and_subnormals() {
    assert_eq!(factor(0.0), Some(Factor { negative: false, mantissa: 0, exponent: -1074 }));
    assert_eq!(Factor::from_bits(1), Some(Factor { negative: false, mantissa: 1, exponent: -1074 }));
    assert_eq!(
        Factor::from_bits((1 << 52) - 1),
        Some(Factor { negative: false, mantissa: (1 << 52) - 1, exponent: -1074 })
    );
}

#[test]
fn from_bits_of_the_extremes() {
    assert_eq!(factor(f64::MIN_POSITIVE), Some(Factor { negative: false, mantissa: 1 << 52, exponent: -1074 }));
    assert_eq!(factor(f64::MAX), Some(Factor { negative: false, mantissa: (1 << 53) - 1, exponent: 971 }));
}

#[test]
fn from_bits_refuses_infinities_and_nans() {
    assert_eq!(factor(f64::INFINITY), None);
    assert_eq!(factor(f64::NEG_INFINITY), None);
    assert_eq!(factor(f64::NAN), None);
    assert_eq!(Factor::from_bits(u64::MAX), None);
}

#[test]
fn from_bits_agrees_with_the_number() {
    for value in [1.0f64, 0.1, 3.75, 1e-310, 6.02e23, 123456789.125] {
        let f = factor(value).expect("finite");
        let back = f.mantissa as f64 * 2f64.powi(f.exponent as i32 + 600) * 2f64.powi(-600);
        assert_eq!(back, value);
    }
}

#[test]
fn scale_multiplies_the_mantissa() {
    let f = Factor { negative: false, mantissa: 5 << 50, exponent: -52 };
    assert_eq!(f.scale(390), Extent { negative: false, mantissa: 390 * (5 << 50), exponent: -52 });
    assert_eq!(f.scale(0), Extent { negative: false, mantissa: 0, exponent: -52 });
}

#[test]
fn scale_keeps_sign_and_exponent() {
    let f = Factor { negative: true, mantissa: 3, exponent: 971 };
    assert_eq!(f.scale(600), Extent { negative: true, mantissa: 1800, exponent: 971 });
}

#[test]
fn scale_does_not_overflow() {
    let f = Factor { negative: false, mantissa: u64::MAX, exponent: 0 };
    assert_eq!(
        f.scale(u32::MAX),
        Extent { negative: false, mantissa: (u32::MAX as u128) * (u64::MAX as u128), exponent: 0 }
    );
}
