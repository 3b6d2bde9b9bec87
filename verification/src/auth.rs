//! Reading the bearer of a request from its `Authorization` header: the
//! header's value is the decimal id of the user.

use crate::decimal::{
    IntErrorKind, decimal_bytes, decimal_digits, lemma_decimal_digits_are_digits,
    lemma_decimal_round_trip, parse_i64, parse_i64_spec,
};
use vstd::prelude::*;

verus! {

/// Why a request carries no usable token.
#[derive(Clone, Copy, Debug, PartialEq, Eq, Structural)]
pub enum TokenError {
    /// The request has no `Authorization` header.
    MissingHeader,
    /// The header's value holds a byte that is not visible ASCII, so it is
    /// not text.
    NotVisibleAscii,
    /// The header's text is not the decimal text of an `i64`.
    Parse(IntErrorKind),
}

/// A byte that a header value may hold as text: visible ASCII or a tab.
pub open spec fn is_visible_ascii(b: u8) -> bool {
    (32 <= b && b < 127) || b == 9
}

pub open spec fn all_visible_ascii(s: Seq<u8>) -> bool {
    forall|i: int| 0 <= i < s.len() ==> is_visible_ascii(#[trigger] s[i])
}

/// The token that a request carries, given the bytes of its
/// `Authorization` header, if it has one.
pub open spec fn token_spec(header: Option<Seq<u8>>) -> Result<i64, TokenError> {
    match header {
        None => Err(TokenError::MissingHeader),
        Some(h) => if !all_visible_ascii(h) {
            Err(TokenError::NotVisibleAscii)
        } else {
            match parse_i64_spec(h) {
                Ok(v) => Ok(v),
                Err(kind) => Err(TokenError::Parse(kind)),
            }
        },
    }
}

pub open spec fn header_view(header: Option<&[u8]>) -> Option<Seq<u8>> {
    match header {
        Some(h) => Some(h@),
        None => None,
    }
}

/// Whether the header value is text (`HeaderValue::to_str` succeeds).
fn is_header_text(bytes: &[u8]) -> (r: bool)
    ensures
        r == all_visible_ascii(bytes@),
{
    let mut i: usize = 0;
    while i < bytes.len()
        invariant
            i <= bytes@.len(),
            forall|j: int| 0 <= j < i ==> is_visible_ascii(#[trigger] bytes@[j]),
        decreases bytes@.len() - i,
    {
        let b: u8 = bytes[i];
        if !((b >= 32u8 && b < 127u8) || b == 9u8) {
            assert(!is_visible_ascii(bytes@[i as int]));
            return false;
        }
        i = i + 1;
    }
    true
}

/// The token of a request: the bytes of its `Authorization` header must be
/// text and that text the decimal text of an `i64`.
pub fn parse_token(header: Option<&[u8]>) -> (r: Result<i64, TokenError>)
    ensures
        r == token_spec(header_view(header)),
{
    match header {
        None => Err(TokenError::MissingHeader),
        Some(h) => {
            if !is_header_text(h) {
                return Err(TokenError::NotVisibleAscii);
            }
            match parse_i64(h) {
                Ok(v) => Ok(v),
                Err(kind) => Err(TokenError::Parse(kind)),
            }
        },
    }
}

/// A header whose value is the decimal text of a number carries that number
/// as its token.
pub proof fn lemma_token_of_decimal_text(n: i64)
    ensures
        token_spec(Some(decimal_bytes(n as int))) == Ok::<i64, TokenError>(n),
{
    let s = decimal_bytes(n as int);
    lemma_decimal_round_trip(n);
    if n < 0 {
        let m: nat = (-n) as nat;
        lemma_decimal_digits_are_digits(m);
        assert forall|i: int| 0 <= i < s.len() implies is_visible_ascii(#[trigger] s[i]) by {
            if i > 0 {
                assert(s[i] == decimal_digits(m)[i - 1]);
            }
        }
    } else {
        lemma_decimal_digits_are_digits(n as nat);
    }
}

} // verus!
