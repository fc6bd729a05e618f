//! Decimal integers as `str::parse` reads them into Rust's integer types:
//! an optional sign, then digits read from left to right, with the kind of
//! error `ParseIntError` reports.

use vstd::prelude::*;
use crate::text::{chars_of, is_digit};

verus! {

/// Why a text is not an integer of a type, as `ParseIntError` tells.
#[derive(Clone, Copy, Debug, PartialEq, Eq, Structural)]
pub enum IntErrorKind {
    /// The text is empty.
    Empty,
    /// A character is not a digit, or a sign stands alone.
    InvalidDigit,
    /// The value is above the type's range.
    PosOverflow,
    /// The value is below the type's range.
    NegOverflow,
}

/// The message `ParseIntError` displays for an error kind.
pub open spec fn int_error_text(kind: IntErrorKind) -> Seq<char> {
    match kind {
        IntErrorKind::Empty => "cannot parse integer from empty string"@,
        IntErrorKind::InvalidDigit => "invalid digit found in string"@,
        IntErrorKind::PosOverflow => "number too large to fit in target type"@,
        IntErrorKind::NegOverflow => "number too small to fit in target type"@,
    }
}

/// Returns the message `ParseIntError` displays for an error kind.
pub fn int_error_message(kind: IntErrorKind) -> (r: &'static str)
    ensures
        r@ == int_error_text(kind),
{
    match kind {
        IntErrorKind::Empty => "cannot parse integer from empty string",
        IntErrorKind::InvalidDigit => "invalid digit found in string",
        IntErrorKind::PosOverflow => "number too large to fit in target type",
        IntErrorKind::NegOverflow => "number too small to fit in target type",
    }
}

/// The value of a decimal digit.
pub open spec fn digit_of(c: char) -> int {
    c as int - '0' as int
}

/// Reads the digits of `s` from position `i` on, `acc` having been read so
/// far, toward a value within `lo..=hi`; a negative number subtracts its
/// digits. The first character that is not a digit, or the first digit that
/// leaves the range, decides the error.
pub open spec fn scan_digits(
    s: Seq<char>,
    i: int,
    acc: int,
    negative: bool,
    lo: int,
    hi: int,
) -> Result<int, IntErrorKind>
    decreases s.len() - i,
{
    if i < 0 || i >= s.len() {
        Ok(acc)
    } else if !is_digit(s[i]) {
        Err(IntErrorKind::InvalidDigit)
    } else {
        let next = if negative {
            acc * 10 - digit_of(s[i])
        } else {
            acc * 10 + digit_of(s[i])
        };
        if next > hi {
            Err(IntErrorKind::PosOverflow)
        } else if next < lo {
            Err(IntErrorKind::NegOverflow)
        } else {
            scan_digits(s, i + 1, next, negative, lo, hi)
        }
    }
}

/// What `str::parse` gives for the text `s` and an integer type with the
/// values `lo..=hi`: a leading `+`, or a leading `-` for a signed type, then
/// one or more digits.
pub open spec fn int_parse(s: Seq<char>, lo: int, hi: int) -> Result<int, IntErrorKind> {
    if s.len() == 0 {
        Err(IntErrorKind::Empty)
    } else if (s[0] == '+' || s[0] == '-') && s.len() == 1 {
        Err(IntErrorKind::InvalidDigit)
    } else if s[0] == '+' {
        scan_digits(s, 1, 0, false, lo, hi)
    } else if s[0] == '-' && lo < 0 {
        scan_digits(s, 1, 0, true, lo, hi)
    } else {
        scan_digits(s, 0, 0, false, lo, hi)
    }
}

/// Whether `r` is the exact result `int_parse` gives.
pub open spec fn parses_as(r: Result<i128, IntErrorKind>, expected: Result<int, IntErrorKind>) -> bool {
    match r {
        Ok(v) => expected == Ok::<int, IntErrorKind>(v as int),
        Err(k) => expected == Err::<int, IntErrorKind>(k),
    }
}

/// Reads a decimal integer within `lo..=hi` as `str::parse` does.
fn parse_int_in(s: &str, lo: i128, hi: i128) -> (r: Result<i128, IntErrorKind>)
    requires
        i64::MIN <= lo <= 0 <= hi <= u64::MAX,
    ensures
        parses_as(r, int_parse(s@, lo as int, hi as int)),
        r matches Ok(v) ==> lo <= v <= hi,
{
    let chars = chars_of(s);
    let n = chars.len();
    if n == 0 {
        return Err(IntErrorKind::Empty);
    }
    let first = chars[0];
    if (first == '+' || first == '-') && n == 1 {
        return Err(IntErrorKind::InvalidDigit);
    }
    let (start, negative): (usize, bool) = if first == '+' {
        (1, false)
    } else if first == '-' && lo < 0 {
        (1, true)
    } else {
        (0, false)
    };
    let mut acc: i128 = 0;
    let mut i: usize = start;
    while i < n
        invariant
            n == chars@.len(),
            chars@ == s@,
            start <= i <= n,
            i64::MIN <= lo <= 0 <= hi <= u64::MAX,
            lo <= acc <= hi,
            int_parse(s@, lo as int, hi as int) == scan_digits(
                s@,
                i as int,
                acc as int,
                negative,
                lo as int,
                hi as int,
            ),
        decreases n - i,
    {
        let c = chars[i];
        if !('0' <= c && c <= '9') {
            return Err(IntErrorKind::InvalidDigit);
        }
        let d = (c as u32 - '0' as u32) as i128;
        assert(d == digit_of(c));
        let next = if negative {
            acc * 10 - d
        } else {
            acc * 10 + d
        };
        if next > hi {
            return Err(IntErrorKind::PosOverflow);
        }
        if next < lo {
            return Err(IntErrorKind::NegOverflow);
        }
        acc = next;
        i = i + 1;
    }
    Ok(acc)
}

/// Reads a `u64` as `str::parse::<u64>` does.
pub fn parse_u64(s: &str) -> (r: Result<u64, IntErrorKind>)
    ensures
        match r {
            Ok(v) => int_parse(s@, 0, u64::MAX as int) == Ok::<int, IntErrorKind>(v as int),
            Err(k) => int_parse(s@, 0, u64::MAX as int) == Err::<int, IntErrorKind>(k),
        },
{
    match parse_int_in(s, 0, 0xFFFF_FFFF_FFFF_FFFF) {
        Ok(v) => Ok(v as u64),
        Err(k) => Err(k),
    }
}

/// Reads a `u32` as `str::parse::<u32>` does.
pub fn parse_u32(s: &str) -> (r: Result<u32, IntErrorKind>)
    ensures
        match r {
            Ok(v) => int_parse(s@, 0, u32::MAX as int) == Ok::<int, IntErrorKind>(v as int),
            Err(k) => int_parse(s@, 0, u32::MAX as int) == Err::<int, IntErrorKind>(k),
        },
{
    match parse_int_in(s, 0, 0xFFFF_FFFF) {
        Ok(v) => Ok(v as u32),
        Err(k) => Err(k),
    }
}

/// Reads an `i32` as `str::parse::<i32>` does.
pub fn parse_i32_text(s: &str) -> (r: Result<i32, IntErrorKind>)
    ensures
        match r {
            Ok(v) => int_parse(s@, i32::MIN as int, i32::MAX as int) == Ok::<int, IntErrorKind>(
                v as int,
            ),
            Err(k) => int_parse(s@, i32::MIN as int, i32::MAX as int) == Err::<int, IntErrorKind>(
                k,
            ),
        },
{
    match parse_int_in(s, -0x8000_0000, 0x7FFF_FFFF) {
        Ok(v) => Ok(v as i32),
        Err(k) => Err(k),
    }
}

/// Reads an `i64` as `str::parse::<i64>` does.
pub fn parse_i64(s: &str) -> (r: Result<i64, IntErrorKind>)
    ensures
        match r {
            Ok(v) => int_parse(s@, i64::MIN as int, i64::MAX as int) == Ok::<int, IntErrorKind>(
                v as int,
            ),
            Err(k) => int_parse(s@, i64::MIN as int, i64::MAX as int) == Err::<int, IntErrorKind>(
                k,
            ),
        },
{
    match parse_int_in(s, -0x8000_0000_0000_0000, 0x7FFF_FFFF_FFFF_FFFF) {
        Ok(v) => Ok(v as i64),
        Err(k) => Err(k),
    }
}

} // verus!
