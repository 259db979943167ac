//! Big-endian encodings of fixed-width integers, as the message format uses them.
use vstd::prelude::*;

verus! {

/// 2^32.
pub open spec fn pow2_32() -> int {
    0x1_0000_0000
}

/// The unsigned value of the four bytes `s[i..i + 4]`, most significant byte first.
pub open spec fn be_u32_at(s: Seq<u8>, i: int) -> int {
    s[i] * 0x100_0000 + s[i + 1] * 0x1_0000 + s[i + 2] * 0x100 + s[i + 3]
}

/// The two's-complement value of the four bytes `s[i..i + 4]`, most significant byte first.
pub open spec fn be_i32_at(s: Seq<u8>, i: int) -> int {
    let u = be_u32_at(s, i);
    if u >= 0x8000_0000 {
        u - pow2_32()
    } else {
        u
    }
}

/// The unsigned value of the eight bytes `s[i..i + 8]`, most significant byte first.
pub open spec fn be_u64_at(s: Seq<u8>, i: int) -> int {
    be_u32_at(s, i) * pow2_32() + be_u32_at(s, i + 4)
}

/// The four bytes of `u` (taken modulo 2^32), most significant first.
#[verifier::opaque]
pub open spec fn u32_be_bytes(u: int) -> Seq<u8> {
    seq![
        ((u / 0x100_0000) % 0x100) as u8,
        ((u / 0x1_0000) % 0x100) as u8,
        ((u / 0x100) % 0x100) as u8,
        (u % 0x100) as u8,
    ]
}

/// The four bytes of the two's-complement form of `v`, most significant first.
pub open spec fn i32_be_bytes(v: int) -> Seq<u8> {
    u32_be_bytes(
        if v < 0 {
            v + pow2_32()
        } else {
            v
        },
    )
}

/// The eight bytes of `u`, most significant first.
pub open spec fn u64_be_bytes(u: int) -> Seq<u8> {
    u32_be_bytes(u / pow2_32()) + u32_be_bytes(u % pow2_32())
}

/// The big-endian form of a 32-bit number has four bytes.
pub broadcast proof fn lemma_u32_be_bytes_len(u: int)
    ensures
        #[trigger] u32_be_bytes(u).len() == 4,
{
    reveal(u32_be_bytes);
}

/// Reading back four written bytes gives the value written, for any value
/// below 2^32.
pub proof fn lemma_u32_be_bytes_read_back(u: int)
    requires
        0 <= u < pow2_32(),
    ensures
        u32_be_bytes(u).len() == 4,
        be_u32_at(u32_be_bytes(u), 0) == u,
{
    reveal(u32_be_bytes);
    let b = u32_be_bytes(u);
    assert(b[0] as int == (u / 0x100_0000) % 0x100);
    assert(b[1] as int == (u / 0x1_0000) % 0x100);
    assert(b[2] as int == (u / 0x100) % 0x100);
    assert(b[3] as int == u % 0x100);
    assert(((u / 0x100_0000) % 0x100) * 0x100_0000 + ((u / 0x1_0000) % 0x100) * 0x1_0000 + ((u
        / 0x100) % 0x100) * 0x100 + u % 0x100 == u) by (nonlinear_arith)
        requires
            0 <= u < 0x1_0000_0000,
    ;
}

/// An `i32` written big-endian reads back as itself.
pub proof fn lemma_i32_be_bytes_read_back(v: i32)
    ensures
        i32_be_bytes(v as int).len() == 4,
        be_i32_at(i32_be_bytes(v as int), 0) == v,
{
    let u = if v < 0 {
        v + pow2_32()
    } else {
        v as int
    };
    lemma_u32_be_bytes_read_back(u);
}

/// A `u64` written big-endian reads back as itself.
pub proof fn lemma_u64_be_bytes_read_back(v: u64)
    ensures
        u64_be_bytes(v as int).len() == 8,
        be_u64_at(u64_be_bytes(v as int), 0) == v,
{
    let hi = v as int / pow2_32();
    let lo = v as int % pow2_32();
    assert(0 <= hi < pow2_32()) by (nonlinear_arith)
        requires
            0 <= v < 0x1_0000_0000_0000_0000,
            hi == v as int / 0x1_0000_0000,
    ;
    lemma_u32_be_bytes_read_back(hi);
    lemma_u32_be_bytes_read_back(lo);
    let s = u64_be_bytes(v as int);
    assert(s.subrange(0, 4) =~= u32_be_bytes(hi));
    assert(s.subrange(4, 8) =~= u32_be_bytes(lo));
    assert(be_u32_at(s, 0) == be_u32_at(u32_be_bytes(hi), 0));
    assert(be_u32_at(s, 4) == be_u32_at(u32_be_bytes(lo), 0));
}

/// Four bytes of `s` that are the big-endian form of `v` read back as `v`.
pub proof fn lemma_be_i32_at_of(s: Seq<u8>, i: int, v: i32)
    requires
        0 <= i,
        i + 4 <= s.len(),
        s.subrange(i, i + 4) == i32_be_bytes(v as int),
    ensures
        be_i32_at(s, i) == v,
{
    lemma_i32_be_bytes_read_back(v);
    let x = i32_be_bytes(v as int);
    assert(s[i] == s.subrange(i, i + 4)[0]);
    assert(s[i + 1] == s.subrange(i, i + 4)[1]);
    assert(s[i + 2] == s.subrange(i, i + 4)[2]);
    assert(s[i + 3] == s.subrange(i, i + 4)[3]);
}

/// Four bytes of `s` that are the big-endian form of `u` read back as `u`.
pub proof fn lemma_be_u32_at_of(s: Seq<u8>, i: int, u: int)
    requires
        0 <= u < pow2_32(),
        0 <= i,
        i + 4 <= s.len(),
        s.subrange(i, i + 4) == u32_be_bytes(u),
    ensures
        be_u32_at(s, i) == u,
{
    lemma_u32_be_bytes_read_back(u);
    assert(s[i] == s.subrange(i, i + 4)[0]);
    assert(s[i + 1] == s.subrange(i, i + 4)[1]);
    assert(s[i + 2] == s.subrange(i, i + 4)[2]);
    assert(s[i + 3] == s.subrange(i, i + 4)[3]);
}

/// Eight bytes of `s` that are the big-endian form of `v` read back as `v`.
pub proof fn lemma_be_u64_at_of(s: Seq<u8>, i: int, v: u64)
    requires
        0 <= i,
        i + 8 <= s.len(),
        s.subrange(i, i + 8) == u64_be_bytes(v as int),
    ensures
        be_u64_at(s, i) == v,
{
    lemma_u64_be_bytes_read_back(v);
    let x = u64_be_bytes(v as int);
    assert forall|k: int| 0 <= k < 8 implies s[i + k] == x[k] by {
        assert(s[i + k] == s.subrange(i, i + 8)[k]);
    }
    assert(be_u32_at(s, i) == be_u32_at(x, 0));
    assert(be_u32_at(s, i + 4) == be_u32_at(x, 4));
}

} // verus!
