//! The beacon record and its binary message format.
use vstd::prelude::*;
use vstd::slice::slice_subrange;
use vstd::utf8::{decode_utf8, encode_utf8, encode_utf8_decode_utf8, encode_utf8_valid_utf8, valid_utf8};
use crate::byte_buffer::{
    buffer_from_bytes, buffer_len, buffer_new, buffer_read_bytes, buffer_read_i32,
    buffer_read_string, buffer_read_u64, buffer_write_bytes, buffer_write_i32,
    buffer_write_u64,
};
use crate::clock::current_time_nanos;
use crate::text::{str_range, str_range_valid};
use vstd::string::StringExecFns;
use crate::radix::{i32_from_str_radix, i32_radix_value};
use crate::wire::{lemma_i32_be_bytes_read_back, lemma_be_i32_at_of, lemma_be_u32_at_of, lemma_be_u64_at_of, u32_be_bytes, pow2_32, be_i32_at, be_u32_at, be_u64_at, i32_be_bytes, u64_be_bytes};

verus! {

broadcast use crate::wire::lemma_u32_be_bytes_len;

/// The version that every message starts with.
pub const VERSION: i32 = 5;

/// Hex bytes of the dump's event prefix.
pub const HCIDUMP_PREFIX: i32 = 7;

/// Hex bytes of a Bluetooth device address.
pub const BADDR_SIZE: i32 = 6;

/// Bytes of a uuid.
pub const UUID_SIZE: i32 = 16;

/// Where `new_from_packet` reads its first field: past the two-character
/// marker, the event prefix, the device address and one more hex byte, each
/// hex byte taking three characters.
pub const FIRST_FIELD_POS: i32 = 2 + HCIDUMP_PREFIX * 3 + BADDR_SIZE * 3 + 3;

/// One sighting of a beacon.
#[derive(Debug)]
pub struct Beacon {
    pub scanner_id: String,
    pub uuid: String,
    pub scanner_sequence_no: i32,
    pub code: i32,
    pub manufacturer: i32,
    pub major: i32,
    pub minor: i32,
    pub power: i32,
    pub calibrated_power: i32,
    pub rssi: i32,
    pub message_type: i32,
    /// When the beacon was seen, in nanoseconds since the Unix epoch
    /// (negative before it).
    pub time: i128,
}

/// The message that `to_byte_message` writes for `b`: the version, the raw
/// UTF-8 bytes of the scanner id and of the uuid (with no length prefix),
/// seven `i32` fields, the time as a `u64` and the message type, every number
/// big-endian.
pub open spec fn byte_message(b: Beacon) -> Seq<u8> {
    i32_be_bytes(VERSION as int) + encode_utf8(b.scanner_id@) + encode_utf8(b.uuid@)
        + i32_be_bytes(b.code as int) + i32_be_bytes(b.manufacturer as int) + i32_be_bytes(
        b.major as int,
    ) + i32_be_bytes(b.minor as int) + i32_be_bytes(b.power as int) + i32_be_bytes(
        b.calibrated_power as int,
    ) + i32_be_bytes(b.rssi as int) + u64_be_bytes(written_millis(b.time) as int) + i32_be_bytes(
        b.message_type as int,
    )
}

/// The time field that a message holds for a beacon seen at `t`: the whole
/// milliseconds since the epoch, kept modulo 2^64, or 0 for a time before
/// the epoch.
pub open spec fn written_millis(t: i128) -> u64 {
    if t < 0 {
        0u64
    } else {
        (t / 1_000_000) as u64
    }
}

/// The version field of a message.
pub open spec fn message_version(s: Seq<u8>) -> int {
    be_i32_at(s, 0)
}

/// The length prefix of the scanner id, which follows the version.
pub open spec fn scanner_id_len(s: Seq<u8>) -> int {
    be_u32_at(s, 4)
}

/// Where the length prefix of the uuid stands.
pub open spec fn uuid_prefix_pos(s: Seq<u8>) -> int {
    8 + scanner_id_len(s)
}

/// The length prefix of the uuid.
pub open spec fn uuid_len(s: Seq<u8>) -> int {
    be_u32_at(s, uuid_prefix_pos(s))
}

/// Where the numeric fields start, after both strings.
pub open spec fn fields_pos(s: Seq<u8>) -> int {
    uuid_prefix_pos(s) + 4 + uuid_len(s)
}

/// The bytes of the scanner id.
pub open spec fn scanner_id_bytes(s: Seq<u8>) -> Seq<u8> {
    s.subrange(8, uuid_prefix_pos(s))
}

/// The bytes of the uuid.
pub open spec fn uuid_bytes(s: Seq<u8>) -> Seq<u8> {
    s.subrange(uuid_prefix_pos(s) + 4, fields_pos(s))
}

/// The `k`-th `i32` field after the strings: code, manufacturer, major,
/// minor, power, calibrated power, rssi, message type, heart beat.
pub open spec fn message_field(s: Seq<u8>, k: int) -> int {
    be_i32_at(s, fields_pos(s) + 4 * k)
}

/// The time field, which follows the nine `i32` fields.
pub open spec fn message_time(s: Seq<u8>) -> int {
    be_u64_at(s, fields_pos(s) + 36)
}

/// Every field that `from_byte_message` reads after the version is there,
/// and both strings are valid UTF-8.
pub open spec fn message_complete(s: Seq<u8>) -> bool {
    &&& 8 <= s.len()
    &&& uuid_prefix_pos(s) + 4 <= s.len()
    &&& fields_pos(s) + 44 <= s.len()
    &&& valid_utf8(scanner_id_bytes(s))
    &&& valid_utf8(uuid_bytes(s))
}

/// The beacon that a complete message `s` of the current version stands for.
pub open spec fn decoded_beacon_matches(b: Beacon, s: Seq<u8>) -> bool {
    &&& b.scanner_id@ == decode_utf8(scanner_id_bytes(s))
    &&& b.uuid@ == decode_utf8(uuid_bytes(s))
    &&& b.scanner_sequence_no == 0
    &&& b.code == message_field(s, 0)
    &&& b.manufacturer == message_field(s, 1)
    &&& b.major == message_field(s, 2)
    &&& b.minor == message_field(s, 3)
    &&& b.power == message_field(s, 4)
    &&& b.calibrated_power == message_field(s, 5)
    &&& b.rssi == message_field(s, 6)
    &&& b.message_type == message_field(s, 7)
    &&& b.time == message_time(s) * 1_000_000
}

/// Every message that `to_byte_message` writes carries the version that
/// `from_byte_message` accepts, whatever the beacon.
pub proof fn lemma_written_version_accepted(b: Beacon)
    ensures
        message_version(byte_message(b)) == VERSION,
{
    let head = i32_be_bytes(VERSION as int);
    lemma_i32_be_bytes_read_back(VERSION);
    let s = byte_message(b);
    assert(s[0] == head[0]);
    assert(s[1] == head[1]);
    assert(s[2] == head[2]);
    assert(s[3] == head[3]);
}

/// Decoding reads no byte at or past `length`: two messages that agree on
/// their first `length` bytes are refused alike, admitted alike, and decode
/// to the same beacons.
pub proof fn lemma_decoding_reads_only_prefix(m1: Seq<u8>, m2: Seq<u8>, length: int)
    requires
        0 <= length <= m1.len(),
        length <= m2.len(),
        m1.take(length) == m2.take(length),
    ensures
        message_version(m1.take(length)) == message_version(m2.take(length)),
        message_complete(m1.take(length)) == message_complete(m2.take(length)),
        forall|b: Beacon|
            decoded_beacon_matches(b, m1.take(length)) == decoded_beacon_matches(
                b,
                m2.take(length),
            ),
{
}

/// The message written for a beacon depends on nothing but the fields it
/// holds: two beacons that agree on the scanner id and uuid text, on every
/// number but the scanner sequence number and the time, and whose times are
/// both at or before the epoch or fall in the same whole millisecond after
/// it, are written alike.
pub proof fn lemma_message_determined_by_fields(b1: Beacon, b2: Beacon)
    requires
        b1.scanner_id@ == b2.scanner_id@,
        b1.uuid@ == b2.uuid@,
        b1.code == b2.code,
        b1.manufacturer == b2.manufacturer,
        b1.major == b2.major,
        b1.minor == b2.minor,
        b1.power == b2.power,
        b1.calibrated_power == b2.calibrated_power,
        b1.rssi == b2.rssi,
        (b1.time <= 0 && b2.time <= 0) || (b1.time >= 0 && b2.time >= 0 && b1.time / 1_000_000
            == b2.time / 1_000_000),
        b1.message_type == b2.message_type,
    ensures
        byte_message(b1) == byte_message(b2),
{
}

/// The time field written for a beacon seen at `t`, as `written_millis` says.
pub fn time_field(t: i128) -> (ms: u64)
    ensures
        ms == written_millis(t),
{
    if t < 0 {
        0
    } else {
        (t / 1_000_000) as u64
    }
}

/// The layout of a written message, read back field by field: the version,
/// then the complete UTF-8 bytes of the scanner id and of the uuid, then
/// each number at its place, the time as whole milliseconds since the epoch
/// (0 before it), and nothing more.
pub proof fn lemma_written_message_layout(b: Beacon)
    ensures
        ({
            let m = byte_message(b);
            let id = encode_utf8(b.scanner_id@);
            let uuid = encode_utf8(b.uuid@);
            let p = 4 + id.len() as int + uuid.len() as int;
            &&& m.len() == 44 + id.len() + uuid.len()
            &&& be_i32_at(m, 0) == VERSION
            &&& m.subrange(4, 4 + id.len() as int) == id
            &&& m.subrange(4 + id.len() as int, p) == uuid
            &&& be_i32_at(m, p) == b.code
            &&& be_i32_at(m, p + 4) == b.manufacturer
            &&& be_i32_at(m, p + 8) == b.major
            &&& be_i32_at(m, p + 12) == b.minor
            &&& be_i32_at(m, p + 16) == b.power
            &&& be_i32_at(m, p + 20) == b.calibrated_power
            &&& be_i32_at(m, p + 24) == b.rssi
            &&& be_u64_at(m, p + 28) == (if b.time < 0 {
                0
            } else {
                ((b.time / 1_000_000) as u64) as int
            })
            &&& be_i32_at(m, p + 36) == b.message_type
        }),
{
    let id = encode_utf8(b.scanner_id@);
    let uuid = encode_utf8(b.uuid@);
    let head = i32_be_bytes(VERSION as int) + id + uuid;
    let tail = written_numbers(b);
    let m = byte_message(b);
    let p = head.len() as int;
    assert(m =~= head + tail);
    lemma_written_numbers_layout(b);
    assert(m.subrange(0, 4) =~= i32_be_bytes(VERSION as int));
    lemma_be_i32_at_of(m, 0, VERSION);
    assert(m.subrange(4, 4 + id.len() as int) =~= id);
    assert(m.subrange(4 + id.len() as int, p) =~= uuid);
    assert forall|k: int| 0 <= k <= 36 implies be_i32_at(m, p + k) == be_i32_at(tail, k) by {
        assert(m[p + k] == tail[k]);
        assert(m[p + k + 1] == tail[k + 1]);
        assert(m[p + k + 2] == tail[k + 2]);
        assert(m[p + k + 3] == tail[k + 3]);
    }
    assert(be_u64_at(m, p + 28) == be_u64_at(tail, 28)) by {
        assert(be_i32_at(m, p + 28) == be_i32_at(tail, 28));
        assert(m[p + 28] == tail[28]);
        assert(m[p + 29] == tail[29]);
        assert(m[p + 30] == tail[30]);
        assert(m[p + 31] == tail[31]);
        assert(m[p + 32] == tail[32]);
        assert(m[p + 33] == tail[33]);
        assert(m[p + 34] == tail[34]);
        assert(m[p + 35] == tail[35]);
    }
}

/// The numbers that follow the two strings of a written message.
pub open spec fn written_numbers(b: Beacon) -> Seq<u8> {
    i32_be_bytes(b.code as int) + i32_be_bytes(b.manufacturer as int) + i32_be_bytes(
        b.major as int,
    ) + i32_be_bytes(b.minor as int) + i32_be_bytes(b.power as int) + i32_be_bytes(
        b.calibrated_power as int,
    ) + i32_be_bytes(b.rssi as int) + u64_be_bytes(written_millis(b.time) as int) + i32_be_bytes(
        b.message_type as int,
    )
}

/// Each number of `written_numbers` reads back at its place.
proof fn lemma_written_numbers_layout(b: Beacon)
    ensures
        written_numbers(b).len() == 40,
        be_i32_at(written_numbers(b), 0) == b.code,
        be_i32_at(written_numbers(b), 4) == b.manufacturer,
        be_i32_at(written_numbers(b), 8) == b.major,
        be_i32_at(written_numbers(b), 12) == b.minor,
        be_i32_at(written_numbers(b), 16) == b.power,
        be_i32_at(written_numbers(b), 20) == b.calibrated_power,
        be_i32_at(written_numbers(b), 24) == b.rssi,
        be_u64_at(written_numbers(b), 28) == written_millis(b.time),
        be_i32_at(written_numbers(b), 36) == b.message_type,
{
    let t = written_numbers(b);
    assert(t.subrange(0, 4) =~= i32_be_bytes(b.code as int));
    lemma_be_i32_at_of(t, 0, b.code);
    assert(t.subrange(4, 8) =~= i32_be_bytes(b.manufacturer as int));
    lemma_be_i32_at_of(t, 4, b.manufacturer);
    assert(t.subrange(8, 12) =~= i32_be_bytes(b.major as int));
    lemma_be_i32_at_of(t, 8, b.major);
    assert(t.subrange(12, 16) =~= i32_be_bytes(b.minor as int));
    lemma_be_i32_at_of(t, 12, b.minor);
    assert(t.subrange(16, 20) =~= i32_be_bytes(b.power as int));
    lemma_be_i32_at_of(t, 16, b.power);
    assert(t.subrange(20, 24) =~= i32_be_bytes(b.calibrated_power as int));
    lemma_be_i32_at_of(t, 20, b.calibrated_power);
    assert(t.subrange(24, 28) =~= i32_be_bytes(b.rssi as int));
    lemma_be_i32_at_of(t, 24, b.rssi);
    assert(t.subrange(28, 36) =~= u64_be_bytes(written_millis(b.time) as int));
    lemma_be_u64_at_of(t, 28, written_millis(b.time));
    assert(t.subrange(36, 40) =~= i32_be_bytes(b.message_type as int));
    lemma_be_i32_at_of(t, 36, b.message_type);
}

/// Nine `i32` fields, big-endian, one after the other.
pub open spec fn nine_i32_bytes(f: Seq<i32>) -> Seq<u8> {
    i32_be_bytes(f[0] as int) + i32_be_bytes(f[1] as int) + i32_be_bytes(f[2] as int)
        + i32_be_bytes(f[3] as int) + i32_be_bytes(f[4] as int) + i32_be_bytes(f[5] as int)
        + i32_be_bytes(f[6] as int) + i32_be_bytes(f[7] as int) + i32_be_bytes(f[8] as int)
}

/// A message as a sender lays it out: the version, the scanner id and the
/// uuid, each as a big-endian `u32` byte count followed by its UTF-8 bytes,
/// nine `i32` fields and the time in milliseconds, all big-endian.
pub open spec fn length_prefixed_message(
    id: Seq<char>,
    uuid: Seq<char>,
    f: Seq<i32>,
    time: u64,
) -> Seq<u8> {
    i32_be_bytes(VERSION as int) + u32_be_bytes(encode_utf8(id).len() as int) + encode_utf8(id)
        + u32_be_bytes(encode_utf8(uuid).len() as int) + encode_utf8(uuid) + nine_i32_bytes(f)
        + u64_be_bytes(time as int)
}

/// The numbers after the strings read back at their places.
proof fn lemma_number_tail_layout(f: Seq<i32>, time: u64)
    requires
        f.len() == 9,
    ensures
        ({
            let t = nine_i32_bytes(f) + u64_be_bytes(time as int);
            &&& t.len() == 44
            &&& forall|k: int| 0 <= k < 9 ==> #[trigger] be_i32_at(t, 4 * k) == f[k]
            &&& be_u64_at(t, 36) == time
        }),
{
    let t = nine_i32_bytes(f) + u64_be_bytes(time as int);
    assert forall|k: int| 0 <= k < 9 implies #[trigger] be_i32_at(t, 4 * k) == f[k] by {
        assert(t.subrange(4 * k, 4 * k + 4) =~= i32_be_bytes(f[k] as int));
        lemma_be_i32_at_of(t, 4 * k, f[k]);
    }
    assert(t.subrange(36, 44) =~= u64_be_bytes(time as int));
    lemma_be_u64_at_of(t, 36, time);
}

/// A message laid out with length-prefixed strings is admitted and decodes
/// to exactly what was laid out: the scanner id and uuid text in full, each
/// number in its place, and the time as that many milliseconds after the
/// epoch.
pub proof fn lemma_length_prefixed_message_decodes(
    id: Seq<char>,
    uuid: Seq<char>,
    f: Seq<i32>,
    time: u64,
    b: Beacon,
)
    requires
        f.len() == 9,
        encode_utf8(id).len() < pow2_32(),
        encode_utf8(uuid).len() < pow2_32(),
    ensures
        message_version(length_prefixed_message(id, uuid, f, time)) == VERSION,
        message_complete(length_prefixed_message(id, uuid, f, time)),
        decoded_beacon_matches(b, length_prefixed_message(id, uuid, f, time)) ==> {
            &&& b.scanner_id@ == id
            &&& b.uuid@ == uuid
            &&& b.scanner_sequence_no == 0
            &&& b.code == f[0]
            &&& b.manufacturer == f[1]
            &&& b.major == f[2]
            &&& b.minor == f[3]
            &&& b.power == f[4]
            &&& b.calibrated_power == f[5]
            &&& b.rssi == f[6]
            &&& b.message_type == f[7]
            &&& b.time == time as int * 1_000_000
        },
{
    let m = length_prefixed_message(id, uuid, f, time);
    let idb = encode_utf8(id);
    let ub = encode_utf8(uuid);
    let n1 = idb.len() as int;
    let n2 = ub.len() as int;
    let tail = nine_i32_bytes(f) + u64_be_bytes(time as int);
    let head = i32_be_bytes(VERSION as int) + u32_be_bytes(n1) + idb + u32_be_bytes(n2) + ub;
    lemma_number_tail_layout(f, time);
    assert(m =~= head + tail);
    let fp = 12 + n1 + n2;
    assert(head.len() == fp);

    assert(m.subrange(0, 4) =~= i32_be_bytes(VERSION as int));
    lemma_be_i32_at_of(m, 0, VERSION);
    assert(m.subrange(4, 8) =~= u32_be_bytes(n1));
    lemma_be_u32_at_of(m, 4, n1);
    assert(m.subrange(8 + n1, 12 + n1) =~= u32_be_bytes(n2));
    lemma_be_u32_at_of(m, 8 + n1, n2);
    assert(scanner_id_len(m) == n1);
    assert(uuid_prefix_pos(m) == 8 + n1);
    assert(uuid_len(m) == n2);
    assert(fields_pos(m) == fp);
    assert(scanner_id_bytes(m) =~= idb);
    assert(uuid_bytes(m) =~= ub);
    encode_utf8_valid_utf8(id);
    encode_utf8_valid_utf8(uuid);
    encode_utf8_decode_utf8(id);
    encode_utf8_decode_utf8(uuid);

    assert forall|j: int| 0 <= j < 44 implies m[fp + j] == tail[j] by {}
    assert forall|k: int| 0 <= k < 9 implies #[trigger] message_field(m, k) == f[k] by {
        assert(be_i32_at(m, fp + 4 * k) == be_i32_at(tail, 4 * k)) by {
            assert(m[fp + 4 * k] == tail[4 * k]);
            assert(m[fp + 4 * k + 1] == tail[4 * k + 1]);
            assert(m[fp + 4 * k + 2] == tail[4 * k + 2]);
            assert(m[fp + 4 * k + 3] == tail[4 * k + 3]);
        }
    }
    assert(message_time(m) == time) by {
        assert(m[fp + 36] == tail[36]);
        assert(m[fp + 37] == tail[37]);
        assert(m[fp + 38] == tail[38]);
        assert(m[fp + 39] == tail[39]);
        assert(m[fp + 40] == tail[40]);
        assert(m[fp + 41] == tail[41]);
        assert(m[fp + 42] == tail[42]);
        assert(m[fp + 43] == tail[43]);
    }
    assert(message_field(m, 0) == f[0]);
    assert(message_field(m, 1) == f[1]);
    assert(message_field(m, 2) == f[2]);
    assert(message_field(m, 3) == f[3]);
    assert(message_field(m, 4) == f[4]);
    assert(message_field(m, 5) == f[5]);
    assert(message_field(m, 6) == f[6]);
    assert(message_field(m, 7) == f[7]);
}

impl Beacon {
    /// Decodes the first `length` bytes of `msg`. A message whose version is
    /// not `VERSION` is refused; any other message must hold every field. The
    /// time field counts milliseconds after the epoch.
    pub fn from_byte_message(msg: &[u8], length: usize) -> (res: Result<Beacon, ()>)
        requires
            4 <= length <= msg@.len(),
            message_version(msg@.take(length as int)) == VERSION ==> message_complete(
                msg@.take(length as int),
            ),
        ensures
            res is Err <==> message_version(msg@.take(length as int)) != VERSION,
            res matches Ok(b) ==> decoded_beacon_matches(b, msg@.take(length as int)),
    {
        let part = slice_subrange(msg, 0, length);
        let ghost s = part@;
        assert(s =~= msg@.take(length as int));
        let mut dis = buffer_from_bytes(part);

        // The crate reports a read past the end, or a string that is not UTF-8,
        // as an error. Under the precondition no read below fails, so the
        // error arms are never taken (the postcondition shows it).
        let version = match buffer_read_i32(&mut dis) {
            Ok(v) => v,
            Err(_) => return Err(()),
        };
        if version != VERSION {
            return Err(());
        }
        let scanner_id = match buffer_read_string(&mut dis) {
            Ok(v) => v,
            Err(_) => return Err(()),
        };
        let uuid = match buffer_read_string(&mut dis) {
            Ok(v) => v,
            Err(_) => return Err(()),
        };
        let code = match buffer_read_i32(&mut dis) {
            Ok(v) => v,
            Err(_) => return Err(()),
        };
        let manufacturer = match buffer_read_i32(&mut dis) {
            Ok(v) => v,
            Err(_) => return Err(()),
        };
        let major = match buffer_read_i32(&mut dis) {
            Ok(v) => v,
            Err(_) => return Err(()),
        };
        let minor = match buffer_read_i32(&mut dis) {
            Ok(v) => v,
            Err(_) => return Err(()),
        };
        let power = match buffer_read_i32(&mut dis) {
            Ok(v) => v,
            Err(_) => return Err(()),
        };
        let calibrated_power = match buffer_read_i32(&mut dis) {
            Ok(v) => v,
            Err(_) => return Err(()),
        };
        let rssi = match buffer_read_i32(&mut dis) {
            Ok(v) => v,
            Err(_) => return Err(()),
        };
        let message_type = match buffer_read_i32(&mut dis) {
            Ok(v) => v,
            Err(_) => return Err(()),
        };
        let _heart_beat = match buffer_read_i32(&mut dis) {
            Ok(v) => v,
            Err(_) => return Err(()),
        };
        let time = match buffer_read_u64(&mut dis) {
            Ok(v) => v,
            Err(_) => return Err(()),
        };

        Ok(
            Beacon {
                scanner_id: scanner_id,
                uuid: uuid,
                scanner_sequence_no: 0,
                code: code,
                manufacturer: manufacturer,
                major: major,
                minor: minor,
                power: power,
                calibrated_power: calibrated_power,
                rssi: rssi,
                time: time as i128 * 1_000_000,
                message_type: message_type,
            },
        )
    }

    /// Builds a beacon from a text dump of an advertising packet (hex bytes
    /// separated by spaces).
    ///
    /// Every field is read as `mystoi(&packet[index..2], 16)`: a range that
    /// ends at byte 2 while `index` starts at `FIRST_FIELD_POS` (44), so the
    /// first read already panics, whatever the packet. The precondition is the
    /// validity of that first range, which no packet has.
    pub fn new_from_packet(scanner_id: &str, packet: &str) -> (b: Beacon)
        requires
            str_range_valid(packet, FIRST_FIELD_POS as int, 2),
        ensures
            b.scanner_id@ == scanner_id@,
            b.scanner_sequence_no == 0,
            b.power == 0,
            b.message_type == 0,
    {
        let size = packet.len();

        let mut index: i32 = 2 + HCIDUMP_PREFIX * 3;
        index += BADDR_SIZE * 3;
        index += 3;

        let mut length = mystoi(str_range(packet, index as usize, 2), 16);
        let mut type_ = mystoi(str_range(packet, index as usize + 3, 2), 16);

        loop
            invariant
                str_range_valid(packet, FIRST_FIELD_POS as int, 2),
            decreases size - index,
        {
            if type_ != 0xFF && (index as usize) < (size - 1) {
                break;
            }
            index += 3 * (length + 1);
            length = mystoi(str_range(packet, index as usize, 2), 16);
            type_ = mystoi(str_range(packet, index as usize + 3, 2), 16);
        }
        // A packet with `index >= size` here has no manufacturer-specific
        // data; such a packet panics ("Input packet has no manufacturer
        // specific data"), which the precondition rules out with the rest.

        index += 6;
        let mut manufacturer = 256 * mystoi(str_range(packet, index as usize, 2), 16);
        index += 3;
        manufacturer += mystoi(str_range(packet, index as usize, 2), 16);
        index += 3;

        let code0 = str_range(packet, index as usize, 2);
        index += 3;
        let code1 = str_range(packet, index as usize, 2);
        index += 3;
        let code = 256 * mystoi(code0, 16) + mystoi(code1, 16);

        // The uuid keeps only the spaces among the next `UUID_SIZE` bytes.
        let uuid_part = str_range(packet, index as usize, index as usize + UUID_SIZE as usize);
        let uuid_part_bytes = uuid_part.as_bytes();
        let mut uuid = String::new();
        let mut i: usize = 0;
        while i < uuid_part_bytes.len()
            invariant
                str_range_valid(packet, FIRST_FIELD_POS as int, 2),
            decreases uuid_part_bytes.len() - i,
        {
            if uuid_part_bytes[i] == 0x20 {
                uuid.append(" ");
            }
            i += 1;
        }

        index += UUID_SIZE * 3;

        let major0 = str_range(packet, index as usize, 2);
        index += 3;
        let major1 = str_range(packet, index as usize, 2);
        index += 3;
        let imajor = 256 * mystoi(major0, 16) + mystoi(major1, 16);

        let minor0 = str_range(packet, index as usize, 2);
        index += 3;
        let minor1 = str_range(packet, index as usize, 2);
        index += 3;
        let iminor = 256 * mystoi(minor0, 16) + mystoi(minor1, 16);

        let power = str_range(packet, index as usize, 2);
        index += 3;
        let mut ipower = mystoi(power, 16);
        ipower -= 256;

        let rssi = str_range(packet, index as usize, 2);
        let mut irssi = mystoi(rssi, 16);
        irssi -= 256;

        let now = current_time_nanos();

        Beacon {
            scanner_id: scanner_id.to_owned(),
            uuid: uuid,
            scanner_sequence_no: 0,
            code: code,
            manufacturer: manufacturer,
            major: imajor,
            minor: iminor,
            power: 0,
            calibrated_power: ipower,
            rssi: irssi,
            time: now,
            message_type: 0,
        }
    }

    /// Encodes the beacon as `byte_message` describes.
    pub fn to_byte_message(&self) -> (out: Vec<u8>)
        requires
            encode_utf8(self.scanner_id@).len() + encode_utf8(self.uuid@).len() + 48
                <= usize::MAX,
        ensures
            out@ == byte_message(*self),
    {
        let mut dos = buffer_new();
        buffer_write_i32(&mut dos, VERSION);
        buffer_write_bytes(&mut dos, self.scanner_id.as_str().as_bytes());
        buffer_write_bytes(&mut dos, self.uuid.as_str().as_bytes());
        buffer_write_i32(&mut dos, self.code);
        buffer_write_i32(&mut dos, self.manufacturer);
        buffer_write_i32(&mut dos, self.major);
        buffer_write_i32(&mut dos, self.minor);
        buffer_write_i32(&mut dos, self.power);
        buffer_write_i32(&mut dos, self.calibrated_power);
        buffer_write_i32(&mut dos, self.rssi);
        buffer_write_u64(&mut dos, time_field(self.time));
        buffer_write_i32(&mut dos, self.message_type);
        let n = buffer_len(&dos);
        // All `n` bytes are there to read, so the error arm is never taken.
        let out = match buffer_read_bytes(&mut dos, n) {
            Ok(bytes) => bytes,
            Err(_) => Vec::new(),
        };
        assert(out@ =~= byte_message(*self));
        out
    }
}

/// Reads `packet` as an `i32` written in radix `base`; 0 when it is not one.
pub fn mystoi(packet: &str, base: u32) -> (v: i32)
    requires
        2 <= base <= 36,
    ensures
        v as int == match i32_radix_value(packet@, base as int) {
            Some(n) => n,
            None => 0,
        },
{
    match i32_from_str_radix(packet, base) {
        Ok(n) => n,
        Err(_) => 0,
    }
}

} // verus!
