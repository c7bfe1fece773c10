//! The secret that the host shares with the wallet daemon.
//!
//! The token lives in `auth.txt` in the data directory. A token found
//! there is used as it stands, so that a daemon that already trusts it
//! keeps working; only where there is none is a new one drawn: 32 random
//! bytes, written as 64 lowercase hexadecimal digits.

use vstd::prelude::*;
use crate::text::{join_path, joined};

verus! {

/// Number of random bytes in a new token.
pub const TOKEN_BYTES: usize = 32;

/// What the caller found where the token is kept.
#[derive(Clone, Debug, PartialEq, Eq)]
pub enum TokenFile {
    /// There is no token file.
    Missing,
    /// The token file holds this text.
    Present(String),
    /// There is a token file and it cannot be read.
    Unreadable,
}

/// Why no token could be had.
#[derive(Clone, Copy, Debug, PartialEq, Eq, Structural)]
pub enum TokenError {
    /// The data directory or the token file could not be read or written.
    Io,
    /// The system's random source failed.
    Entropy,
}

/// A token, and whether it still has to be written to the token file.
#[derive(Clone, Debug, PartialEq, Eq)]
pub enum Obtained {
    /// The token of an earlier session; the file is left alone.
    Reused(String),
    /// A new token; the caller writes it to the file before using it.
    Created(String),
}

/// The mathematical content of a [`TokenFile`].
pub enum TokenFileView {
    Missing,
    Present(Seq<char>),
    Unreadable,
}

/// The mathematical content of an [`Obtained`].
pub enum ObtainedView {
    Reused(Seq<char>),
    Created(Seq<char>),
}

impl View for TokenFile {
    type V = TokenFileView;

    open spec fn view(&self) -> TokenFileView {
        match *self {
            TokenFile::Missing => TokenFileView::Missing,
            TokenFile::Present(text) => TokenFileView::Present(text@),
            TokenFile::Unreadable => TokenFileView::Unreadable,
        }
    }
}

impl View for Obtained {
    type V = ObtainedView;

    open spec fn view(&self) -> ObtainedView {
        match *self {
            Obtained::Reused(token) => ObtainedView::Reused(token@),
            Obtained::Created(token) => ObtainedView::Created(token@),
        }
    }
}

impl ObtainedView {
    /// The token itself.
    pub open spec fn token(self) -> Seq<char> {
        match self {
            ObtainedView::Reused(token) => token,
            ObtainedView::Created(token) => token,
        }
    }
}

/// The lowercase hexadecimal digit of a value below sixteen.
pub open spec fn hex_digit(value: int) -> char {
    "0123456789abcdef"@[value]
}

/// The bytes of `data` written as lowercase hexadecimal digits, two for
/// each byte, the high half first.
pub open spec fn hex_lower(data: Seq<u8>) -> Seq<char> {
    Seq::new(
        2 * data.len(),
        |i: int|
            if i % 2 == 0 {
                hex_digit(data[i / 2] as int / 16)
            } else {
                hex_digit(data[i / 2] as int % 16)
            },
    )
}

/// Whether `c` is one of the digits `0` to `9` and `a` to `f`.
pub open spec fn is_hex_char(c: char) -> bool {
    ('0' <= c && c <= '9') || ('a' <= c && c <= 'f')
}

/// Every character of a hexadecimal writing is a lowercase hexadecimal
/// digit, and there are two of them for each byte.
pub proof fn hex_lower_shape(data: Seq<u8>)
    ensures
        hex_lower(data).len() == 2 * data.len(),
        forall|i: int| 0 <= i < hex_lower(data).len() ==> is_hex_char(#[trigger] hex_lower(data)[i]),
{
    reveal_strlit("0123456789abcdef");
    assert forall|i: int| 0 <= i < hex_lower(data).len() implies is_hex_char(#[trigger] hex_lower(data)[i]) by {
        let byte = data[i / 2] as int;
        let value = if i % 2 == 0 {
            byte / 16
        } else {
            byte % 16
        };
        assert(0 <= value < 16);
        assert(hex_lower(data)[i] == hex_digit(value));
    }
}

/// The outcome of asking for the token: `entropy` is what the random
/// source gave, or `None` where it failed, and counts only when there is
/// no token file.
pub open spec fn outcome(file: TokenFileView, entropy: Option<Seq<u8>>) -> Result<ObtainedView, TokenError> {
    match file {
        TokenFileView::Present(token) => Ok(ObtainedView::Reused(token)),
        TokenFileView::Unreadable => Err(TokenError::Io),
        TokenFileView::Missing => match entropy {
            Some(bytes) => Ok(ObtainedView::Created(hex_lower(bytes))),
            None => Err(TokenError::Entropy),
        },
    }
}

/// The token file once the caller has done what `obtained` asks of it.
pub open spec fn file_after(file: TokenFileView, obtained: ObtainedView) -> TokenFileView {
    match obtained {
        ObtainedView::Reused(_) => file,
        ObtainedView::Created(token) => TokenFileView::Present(token),
    }
}

/// Where the token of a data directory is kept.
pub fn token_path(data_dir: &str) -> (path: String)
    ensures
        path@ == joined(data_dir@, "auth.txt"@),
{
    join_path(data_dir, "auth.txt")
}

/// The error of `getrandom`, carried through unread.
#[verifier::external_type_specification]
#[verifier::external_body]
pub struct ExRandomError(getrandom::Error);

/// Fills `dest` with `getrandom::getrandom`. The call overwrites the bytes
/// in place, so the length stays; of the bytes themselves, and of when the
/// call fails, nothing is claimed.
#[verifier::external_body]
fn fill_random(dest: &mut Vec<u8>) -> (filled: Result<(), getrandom::Error>)
    ensures
        final(dest)@.len() == old(dest)@.len(),
{
    getrandom::getrandom(dest.as_mut_slice())
}

/// Writes `data` with `hex::encode`: two lowercase hexadecimal digits for
/// each byte, in order, the high half of a byte first.
#[verifier::external_body]
fn hex_encode(data: &Vec<u8>) -> (text: String)
    ensures
        text@ == hex_lower(data@),
{
    hex::encode(data)
}

/// Settles the token from what was found on disk and what the random
/// source gave: `entropy` is `None` where the source failed.
pub fn settle(file: TokenFile, entropy: Option<Vec<u8>>) -> (settled: Result<Obtained, TokenError>)
    ensures
        match settled {
            Ok(obtained) => outcome(file@, option_bytes(entropy)) == Ok::<ObtainedView, TokenError>(obtained@),
            Err(error) => outcome(file@, option_bytes(entropy)) == Err::<ObtainedView, TokenError>(error),
        },
{
    match file {
        TokenFile::Present(token) => Ok(Obtained::Reused(token)),
        TokenFile::Unreadable => Err(TokenError::Io),
        TokenFile::Missing => match entropy {
            Some(bytes) => Ok(Obtained::Created(hex_encode(&bytes))),
            None => Err(TokenError::Entropy),
        },
    }
}

/// The bytes that the random source gave, if it gave any.
pub open spec fn option_bytes(entropy: Option<Vec<u8>>) -> Option<Seq<u8>> {
    match entropy {
        Some(bytes) => Some(bytes@),
        None => None,
    }
}

/// Draws the random bytes of a new token, or `None` where the random
/// source fails.
pub fn draw_entropy() -> (entropy: Option<Vec<u8>>)
    ensures
        entropy matches Some(bytes) ==> bytes@.len() == TOKEN_BYTES,
{
    let mut bytes: Vec<u8> = Vec::new();
    while bytes.len() < TOKEN_BYTES
        invariant
            bytes.len() <= TOKEN_BYTES,
        decreases TOKEN_BYTES - bytes.len(),
    {
        bytes.push(0u8);
    }
    let filled = fill_random(&mut bytes);
    drawn(filled, bytes)
}

/// What a draw comes to, given how the random source answered: the bytes
/// that it filled where it succeeded, and nothing where it failed.
pub fn drawn(filled: Result<(), getrandom::Error>, bytes: Vec<u8>) -> (entropy: Option<Vec<u8>>)
    ensures
        entropy == if filled is Ok {
            Some(bytes)
        } else {
            None
        },
{
    match filled {
        Ok(()) => Some(bytes),
        Err(_) => None,
    }
}

/// Obtains the token of a data directory, given what the caller found in
/// its token file.
///
/// A token that is present comes back as it is. An unreadable file is an
/// error. Only a missing file makes the host draw 32 random bytes; the new
/// token is their hexadecimal writing, 64 digits long, unless the random
/// source fails.
pub fn obtain(file: TokenFile) -> (obtained: Result<Obtained, TokenError>)
    ensures
        exists|entropy: Option<Seq<u8>>|
            {
                &&& entropy matches Some(bytes) ==> bytes.len() == TOKEN_BYTES
                &&& match obtained {
                    Ok(o) => #[trigger] outcome(file@, entropy) == Ok::<ObtainedView, TokenError>(o@),
                    Err(error) => outcome(file@, entropy) == Err::<ObtainedView, TokenError>(error),
                }
            },
        file@ is Present ==> obtained is Ok,
        file@ is Unreadable ==> obtained is Err,
        obtained matches Ok(Obtained::Created(token)) ==> {
            &&& token@.len() == 2 * TOKEN_BYTES
            &&& forall|i: int| 0 <= i < token@.len() ==> is_hex_char(#[trigger] token@[i])
        },
{
    let entropy = match file {
        TokenFile::Missing => draw_entropy(),
        _ => None,
    };
    proof {
        if entropy is Some {
            hex_lower_shape(entropy->Some_0@);
        }
    }
    let settled = settle(file, entropy);
    assert(match settled {
        Ok(o) => outcome(file@, option_bytes(entropy)) == Ok::<ObtainedView, TokenError>(o@),
        Err(error) => outcome(file@, option_bytes(entropy)) == Err::<ObtainedView, TokenError>(error),
    });
    settled
}

/// Closes the exchange with the token file: a new token counts only once
/// it has been written, and a failed write is an error.
pub fn confirm(obtained: Obtained, written: bool) -> (token: Result<String, TokenError>)
    ensures
        match token {
            Ok(t) => t@ == obtained@.token() && (obtained is Reused || written),
            Err(error) => error == TokenError::Io && obtained is Created && !written,
        },
{
    match obtained {
        Obtained::Reused(token) => Ok(token),
        Obtained::Created(token) => if written {
            Ok(token)
        } else {
            Err(TokenError::Io)
        },
    }
}

/// Asking twice gives the same token. Once a first request has succeeded
/// and the caller has done what it asks, a second request, after a restart
/// and whatever the random source gives then, succeeds with the identical
/// token and writes nothing.
pub proof fn obtain_twice_same_token(file: TokenFileView, first: Option<Seq<u8>>, second: Option<Seq<u8>>)
    requires
        outcome(file, first) is Ok,
    ensures
        outcome(file_after(file, outcome(file, first)->Ok_0), second) == Ok::<ObtainedView, TokenError>(
            ObtainedView::Reused(outcome(file, first)->Ok_0.token()),
        ),
{
}

} // verus!
