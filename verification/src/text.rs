//! Text operations of `std` that the packet parsing uses, with what their
//! documentation promises.
use vstd::prelude::*;
use vstd::utf8::{is_char_boundary, valid_utf8};
use vstd::string::StringSliceAdditionalSpecFns;
use core::str::Utf8Error;

verus! {

/// `start..end` is a byte range of `s` that begins and ends on character
/// boundaries, so that `&s[start..end]` is defined.
pub open spec fn str_range_valid(s: &str, start: int, end: int) -> bool {
    &&& 0 <= start <= end <= s.spec_bytes().len()
    &&& is_char_boundary(s.spec_bytes(), start)
    &&& is_char_boundary(s.spec_bytes(), end)
}

/// `&s[start..end]` for a `str`: the bytes from `start` to `end`. It panics
/// unless both ends are character boundaries with `start <= end <= s.len()`.
#[verifier::external_body]
pub(crate) fn str_range(s: &str, start: usize, end: usize) -> (r: &str)
    requires
        str_range_valid(s, start as int, end as int),
    ensures
        r.spec_bytes() == s.spec_bytes().subrange(start as int, end as int),
{
    &s[start..end]
}

/// `c` has the Unicode `White_Space` property, which `char::is_whitespace`
/// and so `str::trim` go by.
pub open spec fn is_white_space(c: char) -> bool {
    let n = c as int;
    ||| 0x09 <= n <= 0x0d
    ||| n == 0x20
    ||| n == 0x85
    ||| n == 0xa0
    ||| n == 0x1680
    ||| 0x2000 <= n <= 0x200a
    ||| n == 0x2028
    ||| n == 0x2029
    ||| n == 0x202f
    ||| n == 0x205f
    ||| n == 0x3000
}

/// `s` without its leading white space.
pub open spec fn trim_start_chars(s: Seq<char>) -> Seq<char>
    decreases s.len(),
{
    if s.len() > 0 && is_white_space(s[0]) {
        trim_start_chars(s.drop_first())
    } else {
        s
    }
}

/// `s` without its trailing white space.
pub open spec fn trim_end_chars(s: Seq<char>) -> Seq<char>
    decreases s.len(),
{
    if s.len() > 0 && is_white_space(s.last()) {
        trim_end_chars(s.drop_last())
    } else {
        s
    }
}

/// `s` without leading or trailing white space.
pub open spec fn trimmed(s: Seq<char>) -> Seq<char> {
    trim_end_chars(trim_start_chars(s))
}

/// `str::trim`: the string without leading and trailing characters that
/// have the Unicode `White_Space` property.
#[verifier::external_body]
pub(crate) fn str_trim(s: &str) -> (r: &str)
    ensures
        r@ == trimmed(s@),
{
    s.trim()
}

/// The bytes `p` occur in `s` starting at index `i`.
pub open spec fn occurs_at(s: Seq<u8>, p: Seq<u8>, i: int) -> bool {
    &&& 0 <= i
    &&& i + p.len() <= s.len()
    &&& s.subrange(i, i + p.len()) == p
}

/// `str::find` with a string pattern: the byte index of the first
/// occurrence of the pattern, if it occurs.
#[verifier::external_body]
pub(crate) fn str_find(haystack: &str, pattern: &str) -> (r: Option<usize>)
    ensures
        r is Some <==> exists|i: int| occurs_at(haystack.spec_bytes(), pattern.spec_bytes(), i),
        r matches Some(i) ==> occurs_at(haystack.spec_bytes(), pattern.spec_bytes(), i as int)
            && forall|j: int|
            0 <= j < i ==> !occurs_at(haystack.spec_bytes(), pattern.spec_bytes(), j),
{
    haystack.find(pattern)
}

#[verifier::external_type_specification]
#[verifier::external_body]
pub struct ExUtf8Error(core::str::Utf8Error);

/// `std::str::from_utf8`: the bytes as a string slice when they are valid
/// UTF-8, an error otherwise.
#[verifier::external_body]
pub(crate) fn str_from_utf8(v: &[u8]) -> (r: Result<&str, Utf8Error>)
    ensures
        r is Ok <==> valid_utf8(v@),
        r matches Ok(s) ==> s.spec_bytes() == v@,
{
    std::str::from_utf8(v)
}

} // verus!
