//! Decimal text for 64-bit signed integers: the text `i64::to_string`
//! writes, and the reading `str::parse::<i64>` gives of a byte string.

use vstd::prelude::*;

verus! {

/// Why a byte string is not the decimal text of an `i64`, named as
/// `core::num::IntErrorKind` names the reasons.
#[derive(Clone, Copy, Debug, PartialEq, Eq, Structural)]
pub enum IntErrorKind {
    /// The text is empty.
    Empty,
    /// A byte that is not a decimal digit, or a lone sign.
    InvalidDigit,
    /// The value is above `i64::MAX`.
    PosOverflow,
    /// The value is below `i64::MIN`.
    NegOverflow,
}

/// An ASCII decimal digit.
pub open spec fn is_digit(b: u8) -> bool {
    48 <= b <= 57
}

/// The ASCII byte of the digit `d` (for `d < 10`).
pub open spec fn digit_byte(d: nat) -> u8 {
    (d + 48) as u8
}

/// The decimal digits of `n`, most significant first, without leading zeros.
pub open spec fn decimal_digits(n: nat) -> Seq<u8>
    decreases n,
{
    if n < 10 {
        seq![digit_byte(n)]
    } else {
        decimal_digits(n / 10).push(digit_byte(n % 10))
    }
}

/// The decimal text of `n`: a `-` before the digits of a negative number.
pub open spec fn decimal_bytes(n: int) -> Seq<u8> {
    if n < 0 {
        seq![45u8] + decimal_digits((-n) as nat)
    } else {
        decimal_digits(n as nat)
    }
}

/// ASCII bytes read as characters.
pub open spec fn ascii_chars(s: Seq<u8>) -> Seq<char> {
    s.map_values(|b: u8| b as char)
}

pub open spec fn in_i64(v: int) -> bool {
    i64::MIN <= v <= i64::MAX
}

/// Reads the digits of `s` from left to right, accumulating the value with
/// the given sign, and stops at the first byte that is not a digit or the
/// first step whose value leaves the range of `i64`.
pub open spec fn scan_digits(s: Seq<u8>, negative: bool) -> Result<int, IntErrorKind>
    decreases s.len(),
{
    if s.len() == 0 {
        Ok(0)
    } else {
        match scan_digits(s.drop_last(), negative) {
            Err(e) => Err(e),
            Ok(v) => {
                let b = s.last();
                if !is_digit(b) {
                    Err(IntErrorKind::InvalidDigit)
                } else {
                    let w = if negative {
                        v * 10 - (b - 48)
                    } else {
                        v * 10 + (b - 48)
                    };
                    if in_i64(w) {
                        Ok(w)
                    } else if negative {
                        Err(IntErrorKind::NegOverflow)
                    } else {
                        Err(IntErrorKind::PosOverflow)
                    }
                }
            },
        }
    }
}

/// What `str::parse::<i64>` gives for the text `s`: an optional `+` or `-`
/// followed by at least one decimal digit and nothing else, whose value fits.
pub open spec fn parse_i64_spec(s: Seq<u8>) -> Result<i64, IntErrorKind> {
    if s.len() == 0 {
        Err(IntErrorKind::Empty)
    } else {
        let signed = s[0] == 43u8 || s[0] == 45u8;
        if signed && s.len() == 1 {
            Err(IntErrorKind::InvalidDigit)
        } else {
            let digits = if signed {
                s.drop_first()
            } else {
                s
            };
            match scan_digits(digits, s[0] == 45u8) {
                Ok(v) => Ok(v as i64),
                Err(e) => Err(e),
            }
        }
    }
}

/// Once a scan has failed on a prefix, the whole text fails the same way.
proof fn lemma_scan_failure_persists(s: Seq<u8>, k: int, negative: bool)
    requires
        0 <= k <= s.len(),
        scan_digits(s.take(k), negative) is Err,
    ensures
        scan_digits(s, negative) == scan_digits(s.take(k), negative),
    decreases s.len() - k,
{
    if k == s.len() {
        assert(s.take(k) =~= s);
    } else {
        assert(s.drop_last().take(k) =~= s.take(k));
        lemma_scan_failure_persists(s.drop_last(), k, negative);
    }
}

/// Every byte of a decimal text of digits is a digit, and there is at least one.
pub proof fn lemma_decimal_digits_are_digits(m: nat)
    ensures
        decimal_digits(m).len() >= 1,
        forall|i: int| 0 <= i < decimal_digits(m).len() ==> is_digit(#[trigger] decimal_digits(m)[i]),
    decreases m,
{
    if m >= 10 {
        lemma_decimal_digits_are_digits(m / 10);
    }
}

/// Scanning the digits of `m` with a sign gives back the signed value.
proof fn lemma_scan_decimal_digits(m: nat, negative: bool)
    requires
        in_i64(if negative { -m } else { m as int }),
    ensures
        scan_digits(decimal_digits(m), negative) == Ok::<int, IntErrorKind>(if negative { -m } else { m as int }),
    decreases m,
{
    let s = decimal_digits(m);
    if m < 10 {
        assert(s.drop_last() =~= Seq::<u8>::empty());
        assert(s.last() == m + 48);
        assert(scan_digits(s.drop_last(), negative) == Ok::<int, IntErrorKind>(0));
    } else {
        lemma_scan_decimal_digits(m / 10, negative);
        assert(s.drop_last() =~= decimal_digits(m / 10));
        assert((m / 10) * 10 + m % 10 == m);
        assert(s.last() == (m % 10) + 48);
        if negative {
            assert(-(m / 10) * 10 - (m % 10) == -m);
        }
    }
}

/// Reading back the decimal text of any `i64` gives that number: what
/// `to_string` writes, `parse` reads.
pub proof fn lemma_decimal_round_trip(n: i64)
    ensures
        parse_i64_spec(decimal_bytes(n as int)) == Ok::<i64, IntErrorKind>(n),
{
    let s = decimal_bytes(n as int);
    if n < 0 {
        let m: nat = (-n) as nat;
        lemma_decimal_digits_are_digits(m);
        lemma_scan_decimal_digits(m, true);
        assert(s.drop_first() =~= decimal_digits(m));
    } else {
        let m: nat = n as nat;
        lemma_decimal_digits_are_digits(m);
        assert(is_digit(s[0]));
        lemma_scan_decimal_digits(m, false);
    }
}

/// Reads a byte string as `str::parse::<i64>` does.
pub fn parse_i64(s: &[u8]) -> (r: Result<i64, IntErrorKind>)
    ensures
        r == parse_i64_spec(s@),
{
    let n: usize = s.len();
    if n == 0 {
        return Err(IntErrorKind::Empty);
    }
    let first: u8 = s[0];
    let signed: bool = first == 43u8 || first == 45u8;
    if signed && n == 1 {
        return Err(IntErrorKind::InvalidDigit);
    }
    let negative: bool = first == 45u8;
    let start: usize = if signed { 1 } else { 0 };
    let ghost digits: Seq<u8> = if signed { s@.drop_first() } else { s@ };
    assert(digits =~= s@.subrange(start as int, n as int));
    assert(digits.take(0) =~= Seq::<u8>::empty());
    assert(parse_i64_spec(s@) == match scan_digits(digits, negative) {
        Ok(v) => Ok::<i64, IntErrorKind>(v as i64),
        Err(e) => Err(e),
    });
    let mut acc: i64 = 0;
    let mut i: usize = start;
    while i < n
        invariant
            start <= i <= n,
            n == s@.len(),
            digits == s@.subrange(start as int, n as int),
            parse_i64_spec(s@) == match scan_digits(digits, negative) {
                Ok(v) => Ok::<i64, IntErrorKind>(v as i64),
                Err(e) => Err(e),
            },
            scan_digits(digits.take(i - start), negative) == Ok::<int, IntErrorKind>(acc as int),
        decreases n - i,
    {
        let ghost k: int = i - start + 1;
        assert(digits.take(k).drop_last() =~= digits.take(k - 1));
        assert(digits.take(k).last() == s@[i as int]);
        let b: u8 = s[i];
        if b < 48u8 || b > 57u8 {
            assert(scan_digits(digits.take(k), negative) == Err::<int, IntErrorKind>(IntErrorKind::InvalidDigit));
            proof {
                lemma_scan_failure_persists(digits, k, negative);
            }
            return Err(IntErrorKind::InvalidDigit);
        }
        let d: i128 = (b - 48u8) as i128;
        let wide: i128 = if negative {
            (acc as i128) * 10 - d
        } else {
            (acc as i128) * 10 + d
        };
        if wide < (i64::MIN as i128) || wide > (i64::MAX as i128) {
            assert(scan_digits(digits.take(k), negative) == if negative {
                Err::<int, IntErrorKind>(IntErrorKind::NegOverflow)
            } else {
                Err::<int, IntErrorKind>(IntErrorKind::PosOverflow)
            });
            proof {
                lemma_scan_failure_persists(digits, k, negative);
            }
            if negative {
                return Err(IntErrorKind::NegOverflow);
            } else {
                return Err(IntErrorKind::PosOverflow);
            }
        }
        acc = wide as i64;
        i = i + 1;
    }
    assert(digits.take(n - start) =~= digits);
    Ok(acc)
}

/// The decimal digits of an unsigned value.
fn decimal_u64(m: u64) -> (v: Vec<u8>)
    ensures
        v@ == decimal_digits(m as nat),
    decreases m,
{
    if m < 10 {
        let mut v: Vec<u8> = Vec::new();
        v.push((m as u8) + 48u8);
        v
    } else {
        let mut v: Vec<u8> = decimal_u64(m / 10);
        v.push(((m % 10) as u8) + 48u8);
        v
    }
}

/// The decimal text of `n`, as `i64::to_string` writes it.
pub fn decimal_i64(n: i64) -> (v: Vec<u8>)
    ensures
        v@ == decimal_bytes(n as int),
{
    if n < 0 {
        let magnitude: u64 = ((-(n + 1)) as u64) + 1;
        let digits: Vec<u8> = decimal_u64(magnitude);
        let mut v: Vec<u8> = Vec::new();
        v.push(45u8);
        let mut i: usize = 0;
        while i < digits.len()
            invariant
                i <= digits@.len(),
                v@ == seq![45u8] + digits@.take(i as int),
            decreases digits@.len() - i,
        {
            v.push(digits[i]);
            i = i + 1;
            assert(v@ =~= seq![45u8] + digits@.take(i as int));
        }
        assert(digits@.take(i as int) =~= digits@);
        v
    } else {
        decimal_u64(n as u64)
    }
}

/// Appends one character to a string (`String::push`).
#[verifier::external_body]
fn push_char(s: &mut String, c: char)
    ensures
        final(s)@ == old(s)@.push(c),
{
    s.push(c);
}

/// Appends ASCII bytes to a string, one character per byte.
pub fn append_ascii(s: &mut String, bytes: &[u8])
    ensures
        final(s)@ == old(s)@ + ascii_chars(bytes@),
{
    let ghost start: Seq<char> = s@;
    let mut i: usize = 0;
    while i < bytes.len()
        invariant
            i <= bytes@.len(),
            s@ == start + ascii_chars(bytes@.take(i as int)),
        decreases bytes@.len() - i,
    {
        let b: u8 = bytes[i];
        push_char(s, b as char);
        i = i + 1;
        assert(ascii_chars(bytes@.take(i as int)) =~= ascii_chars(bytes@.take(i - 1)).push(b as char));
        assert(s@ =~= start + ascii_chars(bytes@.take(i as int)));
    }
    assert(bytes@.take(i as int) =~= bytes@);
}

} // verus!
