//! Parsing of the sample index in manual tuning and color options: `$hh` or
//! `0xhh` in hexadecimal, or decimal, into a byte.

use vstd::prelude::*;
use vstd::string::StringSliceAdditionalSpecFns;

verus! {

/// Why a number did not parse.
#[derive(Clone, Copy, PartialEq, Eq, Structural, Debug)]
pub enum ParseNumberError {
    Empty,
    InvalidDigit,
    Overflow,
}

/// The value of an ASCII digit in a radix up to 36, or -1 if it is none.
pub open spec fn digit_of(c: u8, radix: int) -> int {
    let d = if 48 <= c <= 57 {
        c - 48
    } else if 97 <= c <= 122 {
        c - 97 + 10
    } else if 65 <= c <= 90 {
        c - 65 + 10
    } else {
        99
    };
    if d < radix { d } else { -1 }
}

/// Reads digits left to right onto `acc`; the first digit that is invalid, or
/// that takes the value past 255, decides the error.
pub open spec fn scan_digits(b: Seq<u8>, radix: int, acc: int) -> Result<int, ParseNumberError>
    decreases b.len(),
{
    if b.len() == 0 {
        Ok(acc)
    } else {
        let d = digit_of(b[0], radix);
        if d < 0 {
            Err(ParseNumberError::InvalidDigit)
        } else if acc * radix + d > 255 {
            Err(ParseNumberError::Overflow)
        } else {
            scan_digits(b.drop_first(), radix, acc * radix + d)
        }
    }
}

/// A byte written in a radix, with an optional leading `+`.
pub open spec fn parse_radix(b: Seq<u8>, radix: int) -> Result<u8, ParseNumberError> {
    if b.len() == 0 {
        Err(ParseNumberError::Empty)
    } else if (b[0] == 43 || b[0] == 45) && b.len() == 1 {
        Err(ParseNumberError::InvalidDigit)
    } else {
        let digits = if b[0] == 43 { b.drop_first() } else { b };
        match scan_digits(digits, radix, 0) {
            Ok(v) => Ok(v as u8),
            Err(e) => Err(e),
        }
    }
}

/// A sample index: `$` or `0x` / `0X` before hexadecimal digits, else decimal.
pub open spec fn tuning_number(b: Seq<u8>) -> Result<u8, ParseNumberError> {
    if b.len() >= 1 && b[0] == 36 {
        parse_radix(b.drop_first(), 16)
    } else if b.len() >= 2 && b[0] == 48 && (b[1] == 120 || b[1] == 88) {
        parse_radix(b.subrange(2, b.len() as int), 16)
    } else {
        parse_radix(b, 10)
    }
}

pub open spec fn error_message(e: ParseNumberError) -> Seq<char> {
    match e {
        ParseNumberError::Empty => "cannot parse integer from empty string"@,
        ParseNumberError::InvalidDigit => "invalid digit found in string"@,
        ParseNumberError::Overflow => "number too large to fit in target type"@,
    }
}

fn digit_value(c: u8, radix: u32) -> (r: i32)
    requires
        2 <= radix <= 36,
    ensures
        r == digit_of(c, radix as int),
{
    let d: u32 = if 48 <= c && c <= 57 {
        (c - 48) as u32
    } else if 97 <= c && c <= 122 {
        (c - 97 + 10) as u32
    } else if 65 <= c && c <= 90 {
        (c - 65 + 10) as u32
    } else {
        99
    };
    if d < radix { d as i32 } else { -1 }
}

/// Parses the bytes from `start` on as a byte in the given radix.
pub fn parse_radix_from(b: &[u8], start: usize, radix: u32) -> (r: Result<u8, ParseNumberError>)
    requires
        start <= b@.len(),
        2 <= radix <= 36,
    ensures
        r == parse_radix(b@.subrange(start as int, b@.len() as int), radix as int),
{
    let ghost s = b@.subrange(start as int, b@.len() as int);
    let n = b.len();
    if start == n {
        return Err(ParseNumberError::Empty);
    }
    if (b[start] == 43 || b[start] == 45) && start + 1 == n {
        return Err(ParseNumberError::InvalidDigit);
    }
    let mut i: usize = if b[start] == 43 { start + 1 } else { start };
    let ghost digits = b@.subrange(i as int, n as int);
    assert(digits =~= (if s[0] == 43 { s.drop_first() } else { s }));
    let mut acc: u32 = 0;
    while i < n
        invariant
            start <= i <= n,
            n == b@.len(),
            2 <= radix <= 36,
            acc <= 255,
            s == b@.subrange(start as int, b@.len() as int),
            s.len() > 0,
            !((s[0] == 43 || s[0] == 45) && s.len() == 1),
            digits == (if s[0] == 43 { s.drop_first() } else { s }),
            scan_digits(b@.subrange(i as int, n as int), radix as int, acc as int) == scan_digits(
                digits,
                radix as int,
                0,
            ),
        decreases n - i,
    {
        let d = digit_value(b[i], radix);
        assert(b@.subrange(i as int, n as int)[0] == b@[i as int]);
        assert(b@.subrange(i as int, n as int).drop_first() =~= b@.subrange(i + 1, n as int));
        if d < 0 {
            assert(scan_digits(b@.subrange(i as int, n as int), radix as int, acc as int) == Err::<
                int,
                ParseNumberError,
            >(ParseNumberError::InvalidDigit));
            return Err(ParseNumberError::InvalidDigit);
        }
        assert(acc * radix <= 255 * 36) by (nonlinear_arith)
            requires acc <= 255, radix <= 36;
        let next = acc * radix + d as u32;
        if next > 255 {
            assert(scan_digits(b@.subrange(i as int, n as int), radix as int, acc as int) == Err::<
                int,
                ParseNumberError,
            >(ParseNumberError::Overflow));
            return Err(ParseNumberError::Overflow);
        }
        acc = next;
        i = i + 1;
    }
    assert(b@.subrange(i as int, n as int).len() == 0);
    Ok(acc as u8)
}

/// Parses a sample index: `$hh`, `0xhh` or `0Xhh` in hexadecimal, else decimal.
pub fn sample_tuning_numeric_parser(s: &str) -> (r: Result<u8, String>)
    ensures
        match tuning_number(s.spec_bytes()) {
            Ok(v) => r == Ok::<u8, String>(v),
            Err(e) => r is Err && r->Err_0@ == error_message(e),
        },
{
    let b = s.as_bytes();
    let parsed = if b.len() >= 1 && b[0] == 36 {
        assert(b@.subrange(1, b@.len() as int) =~= b@.drop_first());
        parse_radix_from(b, 1, 16)
    } else if b.len() >= 2 && b[0] == 48 && (b[1] == 120 || b[1] == 88) {
        parse_radix_from(b, 2, 16)
    } else {
        assert(b@.subrange(0, b@.len() as int) =~= b@);
        parse_radix_from(b, 0, 10)
    };
    match parsed {
        Ok(v) => Ok(v),
        Err(ParseNumberError::Empty) => Err("cannot parse integer from empty string".to_owned()),
        Err(ParseNumberError::InvalidDigit) => Err("invalid digit found in string".to_owned()),
        Err(ParseNumberError::Overflow) => Err("number too large to fit in target type".to_owned()),
    }
}

} // verus!
