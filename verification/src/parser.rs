//! The decisions of the packet-dump reader: which accumulated input starts
//! a beacon packet, and how the packet text is put together from it and the
//! two lines that follow.
use vstd::prelude::*;
use vstd::slice::slice_subrange;
use vstd::string::{StringExecFns, StringSliceAdditionalSpecFns};
use vstd::utf8::{decode_utf8, encode_utf8_decode_utf8, valid_utf8};
use crate::text::{occurs_at, str_find, str_from_utf8, str_trim, trimmed};

verus! {

/// The settings of a reading run.
#[allow(non_snake_case)]
pub struct ParseCommand {
    pub scannerID: String,
    pub brokerURL: String,
    pub clientID: String,
    pub destinationName: String,
    pub skipPublish: bool,
    pub asyncMode: bool,
}

/// The bytes of `> 04 3E`, the start of an LE meta event in a dump.
pub open spec fn packet_header_bytes() -> Seq<u8> {
    seq![0x3eu8, 0x20u8, 0x30u8, 0x34u8, 0x20u8, 0x33u8, 0x45u8]
}

/// The bytes of ` 1A FF `, the length and type of the manufacturer-specific
/// data of a beacon.
pub open spec fn manufacturer_marker_bytes() -> Seq<u8> {
    seq![0x20u8, 0x31u8, 0x41u8, 0x20u8, 0x46u8, 0x46u8, 0x20u8]
}

/// The accumulated input without one trailing space byte, if it ends in one.
pub fn strip_trailing_space(line: &[u8]) -> (r: &[u8])
    requires
        line@.len() >= 1,
    ensures
        r@ == (if line@.last() == 0x20u8 {
            line@.drop_last()
        } else {
            line@
        }),
{
    let lenght = line.len();
    if line[lenght - 1] == 0x20u8 {
        let r = slice_subrange(line, 0, lenght - 1);
        assert(r@ =~= line@.drop_last());
        r
    } else {
        line
    }
}

/// The input starts with `> 04 3E` and, from byte 16 on, holds ` 1A FF `.
/// Byte 16 onwards is decoded as UTF-8 (and the reader panics when it is
/// not valid), but only after the start has matched.
pub fn is_packet_header(line: &[u8]) -> (r: bool)
    requires
        line@.len() >= 7,
        line@.take(7) == packet_header_bytes() ==> line@.len() >= 16 && valid_utf8(
            line@.subrange(16, line@.len() as int),
        ),
    ensures
        r == (line@.take(7) == packet_header_bytes() && exists|i: int|
            occurs_at(
                line@.subrange(16, line@.len() as int),
                manufacturer_marker_bytes(),
                i,
            )),
{
    let starts = line[0] == 0x3eu8 && line[1] == 0x20u8 && line[2] == 0x30u8 && line[3] == 0x34u8
        && line[4] == 0x20u8 && line[5] == 0x33u8 && line[6] == 0x45u8;
    if !starts {
        proof {
            if line@.take(7) == packet_header_bytes() {
                assert(line@.take(7)[0] == line@[0]);
                assert(line@.take(7)[1] == line@[1]);
                assert(line@.take(7)[2] == line@[2]);
                assert(line@.take(7)[3] == line@[3]);
                assert(line@.take(7)[4] == line@[4]);
                assert(line@.take(7)[5] == line@[5]);
                assert(line@.take(7)[6] == line@[6]);
            }
        }
        return false;
    }
    assert(line@.take(7) =~= packet_header_bytes());
    let rest = slice_subrange(line, 16, line.len());
    let marker = " 1A FF ";
    proof {
        reveal_strlit(" 1A FF ");
        vstd::string::is_ascii_spec_bytes(marker);
        assert(marker.spec_bytes() =~= manufacturer_marker_bytes());
    }
    match str_from_utf8(rest) {
        Ok(text) => str_find(text, marker).is_some(),
        Err(_) => false,
    }
}

/// The packet text: the accumulated input and the next two reads, each
/// trimmed of white space, joined by single spaces.
pub fn assemble_packet(line: &[u8], first: &str, second: &str) -> (packet: String)
    requires
        valid_utf8(line@),
    ensures
        packet@ == trimmed(decode_utf8(line@)) + seq![' '] + trimmed(first@) + seq![' '] + trimmed(
            second@,
        ),
{
    let text = match str_from_utf8(line) {
        Ok(text) => text,
        Err(_) => return String::new(),
    };
    proof {
        encode_utf8_decode_utf8(text@);
        reveal_strlit(" ");
    }
    let mut string = str_trim(text).to_owned();
    string.append(" ");
    string.append(str_trim(first));
    string.append(" ");
    string.append(str_trim(second));
    string
}

} // verus!
