//! The text form of a uuid, as the `uuid` crate prints it.
use vstd::prelude::*;

verus! {

/// The lower-case hexadecimal digits.
pub open spec fn hex_digits_lower() -> Seq<char> {
    seq!['0', '1', '2', '3', '4', '5', '6', '7', '8', '9', 'a', 'b', 'c', 'd', 'e', 'f']
}

/// The two lower-case hex digits of a byte, high nibble first.
pub open spec fn byte_hex_lower(b: u8) -> Seq<char> {
    seq![hex_digits_lower()[b as int / 16], hex_digits_lower()[b as int % 16]]
}

/// The lower-case hex digits of the bytes `s`, in order.
pub open spec fn hex_lower(s: Seq<u8>) -> Seq<char>
    decreases s.len(),
{
    if s.len() == 0 {
        Seq::empty()
    } else {
        byte_hex_lower(s[0]) + hex_lower(s.drop_first())
    }
}

/// The hyphenated lower-case form of 16 uuid bytes: groups of 4, 2, 2, 2 and
/// 6 bytes in hex, joined by `-`.
pub open spec fn uuid_hyphenated_lower(b: Seq<u8>) -> Seq<char> {
    hex_lower(b.subrange(0, 4)) + seq!['-'] + hex_lower(b.subrange(4, 6)) + seq!['-'] + hex_lower(
        b.subrange(6, 8),
    ) + seq!['-'] + hex_lower(b.subrange(8, 10)) + seq!['-'] + hex_lower(b.subrange(10, 16))
}

#[verifier::external_type_specification]
#[verifier::external_body]
pub struct ExUuidError(uuid::Error);

/// `uuid::Builder::from_slice`, whose result is then printed with `{:?}`.
/// The crate's source: `from_slice` fails exactly when the slice does not
/// hold 16 bytes, and the `Debug` form of a uuid is its hyphenated
/// lower-case hex form.
#[verifier::external_body]
pub(crate) fn uuid_text_from_slice(bytes: &[u8]) -> (r: Result<String, uuid::Error>)
    ensures
        r is Ok <==> bytes@.len() == 16,
        r matches Ok(text) ==> text@ == uuid_hyphenated_lower(bytes@),
{
    match uuid::Builder::from_slice(bytes) {
        Ok(builder) => Ok(format!("{:?}", builder.as_uuid())),
        Err(e) => Err(e),
    }
}

} // verus!
