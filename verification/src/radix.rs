//! Signed integers written in a radix between 2 and 36, as `i32::from_str_radix` reads them.
use vstd::prelude::*;
use core::num::ParseIntError;

verus! {

/// The value of `c` as a digit: `0`-`9`, then `a`-`z` or `A`-`Z` for 10 to 35;
/// 36 for any other character, which is a digit in no radix.
pub open spec fn digit_value(c: char) -> int {
    let n = c as int;
    if 0x30 <= n <= 0x39 {
        n - 0x30
    } else if 0x61 <= n <= 0x7a {
        n - 0x61 + 10
    } else if 0x41 <= n <= 0x5a {
        n - 0x41 + 10
    } else {
        36
    }
}

/// Every character of `s` is a digit in `radix`.
pub open spec fn all_digits(s: Seq<char>, radix: int) -> bool {
    forall|i: int| 0 <= i < s.len() ==> #[trigger] digit_value(s[i]) < radix
}

/// The value of the digits `s` in `radix`, most significant first.
pub open spec fn digits_value(s: Seq<char>, radix: int) -> int
    decreases s.len(),
{
    if s.len() == 0 {
        0
    } else {
        digits_value(s.drop_last(), radix) * radix + digit_value(s.last())
    }
}

/// The digits of `s` once an optional leading sign is taken off.
pub open spec fn unsigned_part(s: Seq<char>) -> Seq<char> {
    if s.len() > 0 && (s[0] == '-' || s[0] == '+') {
        s.drop_first()
    } else {
        s
    }
}

/// The value of `s` read as an optional `+` or `-` followed by at least one
/// digit in `radix`; `None` when `s` has any other shape.
pub open spec fn signed_numeral_value(s: Seq<char>, radix: int) -> Option<int> {
    let digits = unsigned_part(s);
    if digits.len() > 0 && all_digits(digits, radix) {
        if s[0] == '-' {
            Some(-digits_value(digits, radix))
        } else {
            Some(digits_value(digits, radix))
        }
    } else {
        None
    }
}

/// The value that `i32::from_str_radix` gives for `s`, when it gives one:
/// the numeral's value where it fits in an `i32`.
pub open spec fn i32_radix_value(s: Seq<char>, radix: int) -> Option<int> {
    match signed_numeral_value(s, radix) {
        Some(v) => if i32::MIN <= v <= i32::MAX {
            Some(v)
        } else {
            None
        },
        None => None,
    }
}

#[verifier::external_type_specification]
#[verifier::external_body]
pub struct ExParseIntError(core::num::ParseIntError);

/// `i32::from_str_radix`. Its documentation: the string is an optional `+`
/// or `-` followed by digits of the radix (`0`-`9`, then letters of either
/// case); anything else, and a value out of the range of `i32`, is an error;
/// a radix outside 2..=36 panics.
#[verifier::external_body]
pub(crate) fn i32_from_str_radix(src: &str, radix: u32) -> (r: Result<i32, ParseIntError>)
    requires
        2 <= radix <= 36,
    ensures
        r is Ok <==> i32_radix_value(src@, radix as int) is Some,
        r matches Ok(v) ==> i32_radix_value(src@, radix as int) == Some(v as int),
{
    i32::from_str_radix(src, radix)
}

} // verus!
