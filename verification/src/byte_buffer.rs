//! The `bytebuffer` crate's `ByteBuffer`, as the message codec uses it.
//!
//! A `ByteBuffer` holds a vector of bytes, four cursors (the write position,
//! the read position and the pending write and read bit counts) and a byte
//! order. Its contents and this bookkeeping are named below; each method
//! that the codec calls has a wrapper whose contract restates, over those
//! names, what the crate's source does.
use vstd::prelude::*;
use vstd::utf8::*;
use bytebuffer::ByteBuffer;
use crate::wire::{be_i32_at, be_u32_at, be_u64_at, i32_be_bytes, u64_be_bytes};

verus! {

broadcast use crate::wire::lemma_u32_be_bytes_len;

#[verifier::external_type_specification]
#[verifier::external_body]
pub struct ExByteBuffer(bytebuffer::ByteBuffer);

#[verifier::external_type_specification]
#[verifier::external_body]
pub struct ExIoError(std::io::Error);

/// The bytes that a `ByteBuffer` holds (its `data` vector).
pub uninterp spec fn buffer_data(buf: ByteBuffer) -> Seq<u8>;

/// The bookkeeping of a `ByteBuffer`, in the order write position, read
/// position, pending write bits, pending read bits, byte order (0 for big
/// endian, 1 for little endian).
pub uninterp spec fn buffer_state(buf: ByteBuffer) -> Seq<nat>;

/// The read position of a buffer.
pub open spec fn buffer_read_pos(buf: ByteBuffer) -> nat {
    buffer_state(buf)[1]
}

/// The buffer is big-endian, no bit is pending and the write cursor stands
/// at the end of the data: every write appends and every read starts at the
/// read position.
pub open spec fn buffer_plain(buf: ByteBuffer) -> bool {
    buffer_state(buf) == plain_state(buffer_data(buf).len(), buffer_read_pos(buf))
}

/// The bookkeeping of a plain buffer whose data has length `len` and whose
/// read position is `rpos`.
pub open spec fn plain_state(len: nat, rpos: nat) -> Seq<nat> {
    seq![len, rpos, 0nat, 0nat, 0nat]
}

/// `ByteBuffer::new`: no data, every cursor at zero, big endian.
#[verifier::external_body]
pub(crate) fn buffer_new() -> (buf: ByteBuffer)
    ensures
        buffer_data(buf) == Seq::<u8>::empty(),
        buffer_state(buf) == plain_state(0, 0),
{
    ByteBuffer::new()
}

/// `ByteBuffer::from_bytes`: a new buffer into which `bytes` were written,
/// so the write cursor stands after them and the read cursor at zero.
#[verifier::external_body]
pub(crate) fn buffer_from_bytes(bytes: &[u8]) -> (buf: ByteBuffer)
    ensures
        buffer_data(buf) == bytes@,
        buffer_state(buf) == plain_state(bytes@.len(), 0),
{
    ByteBuffer::from_bytes(bytes)
}

/// `ByteBuffer::len`: the length of the data.
#[verifier::external_body]
pub(crate) fn buffer_len(buf: &ByteBuffer) -> (n: usize)
    ensures
        n == buffer_data(*buf).len(),
{
    buf.len()
}

/// `ByteBuffer::write_bytes` on a plain buffer: the bytes are appended and
/// the write cursor follows them.
#[verifier::external_body]
pub(crate) fn buffer_write_bytes(buf: &mut ByteBuffer, bytes: &[u8])
    requires
        buffer_plain(*old(buf)),
        buffer_data(*old(buf)).len() + bytes@.len() <= usize::MAX,
    ensures
        buffer_data(*final(buf)) == buffer_data(*old(buf)) + bytes@,
        buffer_state(*final(buf)) == plain_state(
            buffer_data(*final(buf)).len(),
            buffer_read_pos(*old(buf)),
        ),
{
    buf.write_bytes(bytes)
}

/// `ByteBuffer::write_i32` on a plain buffer: the four big-endian bytes of
/// the value are appended.
#[verifier::external_body]
pub(crate) fn buffer_write_i32(buf: &mut ByteBuffer, val: i32)
    requires
        buffer_plain(*old(buf)),
        buffer_data(*old(buf)).len() + 4 <= usize::MAX,
    ensures
        buffer_data(*final(buf)) == buffer_data(*old(buf)) + i32_be_bytes(val as int),
        buffer_state(*final(buf)) == plain_state(
            buffer_data(*final(buf)).len(),
            buffer_read_pos(*old(buf)),
        ),
{
    buf.write_i32(val)
}

/// `ByteBuffer::write_u64` on a plain buffer: the eight big-endian bytes of
/// the value are appended.
#[verifier::external_body]
pub(crate) fn buffer_write_u64(buf: &mut ByteBuffer, val: u64)
    requires
        buffer_plain(*old(buf)),
        buffer_data(*old(buf)).len() + 8 <= usize::MAX,
    ensures
        buffer_data(*final(buf)) == buffer_data(*old(buf)) + u64_be_bytes(val as int),
        buffer_state(*final(buf)) == plain_state(
            buffer_data(*final(buf)).len(),
            buffer_read_pos(*old(buf)),
        ),
{
    buf.write_u64(val)
}

/// `ByteBuffer::read_bytes` on a plain buffer: the `size` bytes at the read
/// position, which then moves past them; an error, when fewer remain. The
/// crate adds the read position and `size` unchecked, so the sum must fit.
#[verifier::external_body]
pub(crate) fn buffer_read_bytes(buf: &mut ByteBuffer, size: usize) -> (out: Result<
    Vec<u8>,
    std::io::Error,
>)
    requires
        buffer_plain(*old(buf)),
        buffer_read_pos(*old(buf)) + size <= usize::MAX,
    ensures
        out is Ok <==> buffer_read_pos(*old(buf)) + size <= buffer_data(*old(buf)).len(),
        buffer_data(*final(buf)) == buffer_data(*old(buf)),
        out matches Ok(bytes) ==> {
            &&& bytes@ == buffer_data(*old(buf)).subrange(
                buffer_read_pos(*old(buf)) as int,
                buffer_read_pos(*old(buf)) + size,
            )
            &&& buffer_state(*final(buf)) == plain_state(
                buffer_data(*old(buf)).len(),
                buffer_read_pos(*old(buf)) + size as nat,
            )
        },
{
    buf.read_bytes(size)
}

/// `ByteBuffer::read_i32` on a plain buffer: the big-endian two's-complement
/// value of the four bytes at the read position, which then moves past them;
/// an error, when fewer than four remain. The crate adds the read position
/// and 4 unchecked, so the sum must fit.
#[verifier::external_body]
pub(crate) fn buffer_read_i32(buf: &mut ByteBuffer) -> (v: Result<i32, std::io::Error>)
    requires
        buffer_plain(*old(buf)),
        buffer_read_pos(*old(buf)) + 4 <= usize::MAX,
    ensures
        v is Ok <==> buffer_read_pos(*old(buf)) + 4 <= buffer_data(*old(buf)).len(),
        buffer_data(*final(buf)) == buffer_data(*old(buf)),
        v matches Ok(n) ==> {
            &&& n == be_i32_at(buffer_data(*old(buf)), buffer_read_pos(*old(buf)) as int)
            &&& buffer_state(*final(buf)) == plain_state(
                buffer_data(*old(buf)).len(),
                buffer_read_pos(*old(buf)) + 4,
            )
        },
{
    buf.read_i32()
}

/// `ByteBuffer::read_u64` on a plain buffer: the big-endian value of the
/// eight bytes at the read position, which then moves past them; an error,
/// when fewer than eight remain. The crate adds the read position and 8
/// unchecked, so the sum must fit.
#[verifier::external_body]
pub(crate) fn buffer_read_u64(buf: &mut ByteBuffer) -> (v: Result<u64, std::io::Error>)
    requires
        buffer_plain(*old(buf)),
        buffer_read_pos(*old(buf)) + 8 <= usize::MAX,
    ensures
        v is Ok <==> buffer_read_pos(*old(buf)) + 8 <= buffer_data(*old(buf)).len(),
        buffer_data(*final(buf)) == buffer_data(*old(buf)),
        v matches Ok(n) ==> {
            &&& n == be_u64_at(buffer_data(*old(buf)), buffer_read_pos(*old(buf)) as int)
            &&& buffer_state(*final(buf)) == plain_state(
                buffer_data(*old(buf)).len(),
                buffer_read_pos(*old(buf)) + 8,
            )
        },
{
    buf.read_u64()
}

/// The length prefix of the string stored at the read position.
pub open spec fn string_len_at_read_pos(buf: ByteBuffer) -> int {
    be_u32_at(buffer_data(buf), buffer_read_pos(buf) as int)
}

/// The bytes of the string stored at the read position, after its prefix.
pub open spec fn string_bytes_at_read_pos(buf: ByteBuffer) -> Seq<u8> {
    let start = buffer_read_pos(buf) as int + 4;
    buffer_data(buf).subrange(start, start + string_len_at_read_pos(buf))
}

/// `ByteBuffer::read_string` on a plain buffer: a big-endian `u32` length `n`
/// at the read position, then `n` bytes decoded as UTF-8, the read position
/// moving past both; an error, when the bytes are missing or are not UTF-8.
/// The crate adds the read position and each length unchecked, so the sums
/// must fit.
#[verifier::external_body]
pub(crate) fn buffer_read_string(buf: &mut ByteBuffer) -> (s: Result<String, std::io::Error>)
    requires
        buffer_plain(*old(buf)),
        buffer_read_pos(*old(buf)) + 4 <= usize::MAX,
        buffer_read_pos(*old(buf)) + 4 + string_len_at_read_pos(*old(buf)) <= usize::MAX,
    ensures
        s is Ok <==> {
            &&& buffer_read_pos(*old(buf)) + 4 <= buffer_data(*old(buf)).len()
            &&& buffer_read_pos(*old(buf)) + 4 + string_len_at_read_pos(*old(buf))
                <= buffer_data(*old(buf)).len()
            &&& valid_utf8(string_bytes_at_read_pos(*old(buf)))
        },
        buffer_data(*final(buf)) == buffer_data(*old(buf)),
        s matches Ok(text) ==> {
            &&& text@ == decode_utf8(string_bytes_at_read_pos(*old(buf)))
            &&& buffer_state(*final(buf)) == plain_state(
                buffer_data(*old(buf)).len(),
                (buffer_read_pos(*old(buf)) + 4 + string_len_at_read_pos(*old(buf))) as nat,
            )
        },
{
    buf.read_string()
}

} // verus!
