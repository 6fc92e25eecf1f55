//! Big-endian integer layouts used by the wire protocol.
use vstd::prelude::*;

verus! {

/// The four big-endian bytes of `x`.
pub open spec fn be32(x: u32) -> Seq<u8> {
    seq![
        ((x >> 24u32) & 0xffu32) as u8,
        ((x >> 16u32) & 0xffu32) as u8,
        ((x >> 8u32) & 0xffu32) as u8,
        (x & 0xffu32) as u8,
    ]
}

/// The value of four big-endian bytes.
pub open spec fn u32_of_be(b0: u8, b1: u8, b2: u8, b3: u8) -> u32 {
    (b0 as u32) << 24u32 | (b1 as u32) << 16u32 | (b2 as u32) << 8u32 | (b3 as u32)
}

/// The eight big-endian bytes of `x`.
pub open spec fn be64(x: u64) -> Seq<u8> {
    seq![
        ((x >> 56u64) & 0xffu64) as u8,
        ((x >> 48u64) & 0xffu64) as u8,
        ((x >> 40u64) & 0xffu64) as u8,
        ((x >> 32u64) & 0xffu64) as u8,
        ((x >> 24u64) & 0xffu64) as u8,
        ((x >> 16u64) & 0xffu64) as u8,
        ((x >> 8u64) & 0xffu64) as u8,
        (x & 0xffu64) as u8,
    ]
}

/// The value of the eight big-endian bytes of `s` starting at `i`.
pub open spec fn u64_of_be(s: Seq<u8>, i: int) -> u64 {
    (s[i] as u64) << 56u64 | (s[i + 1] as u64) << 48u64 | (s[i + 2] as u64) << 40u64 | (
    s[i + 3] as u64) << 32u64 | (s[i + 4] as u64) << 24u64 | (s[i + 5] as u64) << 16u64 | (s[i
        + 6] as u64) << 8u64 | (s[i + 7] as u64)
}

/// The value of the four big-endian bytes of `s` starting at `i`.
pub open spec fn u32_at(s: Seq<u8>, i: int) -> u32 {
    u32_of_be(s[i], s[i + 1], s[i + 2], s[i + 3])
}

pub proof fn lemma_be32_value(x: u32)
    ensures
        u32_of_be(be32(x)[0], be32(x)[1], be32(x)[2], be32(x)[3]) == x,
{
    assert(((((x >> 24u32) & 0xffu32) as u8) as u32) << 24u32 | ((((x >> 16u32) & 0xffu32) as u8)
        as u32) << 16u32 | ((((x >> 8u32) & 0xffu32) as u8) as u32) << 8u32 | (((x & 0xffu32) as u8)
        as u32) == x) by (bit_vector);
}

pub proof fn lemma_be32_bytes(b0: u8, b1: u8, b2: u8, b3: u8)
    ensures
        be32(u32_of_be(b0, b1, b2, b3)) == seq![b0, b1, b2, b3],
{
    let x = u32_of_be(b0, b1, b2, b3);
    assert(((x >> 24u32) & 0xffu32) as u8 == b0 && ((x >> 16u32) & 0xffu32) as u8 == b1 && ((x
        >> 8u32) & 0xffu32) as u8 == b2 && (x & 0xffu32) as u8 == b3) by (bit_vector)
        requires
            x == (b0 as u32) << 24u32 | (b1 as u32) << 16u32 | (b2 as u32) << 8u32 | (b3 as u32),
    ;
    assert(be32(x) =~= seq![b0, b1, b2, b3]);
}

pub proof fn lemma_be64_value(x: u64)
    ensures
        u64_of_be(be64(x), 0) == x,
{
    assert(((((x >> 56u64) & 0xffu64) as u8) as u64) << 56u64 | ((((x >> 48u64) & 0xffu64) as u8)
        as u64) << 48u64 | ((((x >> 40u64) & 0xffu64) as u8) as u64) << 40u64 | ((((x >> 32u64)
        & 0xffu64) as u8) as u64) << 32u64 | ((((x >> 24u64) & 0xffu64) as u8) as u64) << 24u64 | ((
    ((x >> 16u64) & 0xffu64) as u8) as u64) << 16u64 | ((((x >> 8u64) & 0xffu64) as u8) as u64)
        << 8u64 | (((x & 0xffu64) as u8) as u64) == x) by (bit_vector);
}

pub proof fn lemma_be64_bytes(s: Seq<u8>, i: int)
    requires
        0 <= i,
        i + 8 <= s.len(),
    ensures
        be64(u64_of_be(s, i)) == s.subrange(i, i + 8),
{
    let (b0, b1, b2, b3, b4, b5, b6, b7) = (
        s[i],
        s[i + 1],
        s[i + 2],
        s[i + 3],
        s[i + 4],
        s[i + 5],
        s[i + 6],
        s[i + 7],
    );
    let x = u64_of_be(s, i);
    assert(((x >> 56u64) & 0xffu64) as u8 == b0 && ((x >> 48u64) & 0xffu64) as u8 == b1 && ((x
        >> 40u64) & 0xffu64) as u8 == b2 && ((x >> 32u64) & 0xffu64) as u8 == b3 && ((x >> 24u64)
        & 0xffu64) as u8 == b4 && ((x >> 16u64) & 0xffu64) as u8 == b5 && ((x >> 8u64) & 0xffu64)
        as u8 == b6 && (x & 0xffu64) as u8 == b7) by (bit_vector)
        requires
            x == (b0 as u64) << 56u64 | (b1 as u64) << 48u64 | (b2 as u64) << 40u64 | (b3 as u64)
                << 32u64 | (b4 as u64) << 24u64 | (b5 as u64) << 16u64 | (b6 as u64) << 8u64 | (
            b7 as u64),
    ;
    assert(be64(x) =~= s.subrange(i, i + 8));
}

/// Appends the big-endian bytes of `x`.
pub fn push_u32_be(buf: &mut Vec<u8>, x: u32)
    ensures
        final(buf)@ == old(buf)@ + be32(x),
{
    buf.push(((x >> 24u32) & 0xffu32) as u8);
    buf.push(((x >> 16u32) & 0xffu32) as u8);
    buf.push(((x >> 8u32) & 0xffu32) as u8);
    buf.push((x & 0xffu32) as u8);
    assert(buf@ =~= old(buf)@ + be32(x));
}

/// Appends the big-endian bytes of `x`.
pub fn push_u64_be(buf: &mut Vec<u8>, x: u64)
    ensures
        final(buf)@ == old(buf)@ + be64(x),
{
    buf.push(((x >> 56u64) & 0xffu64) as u8);
    buf.push(((x >> 48u64) & 0xffu64) as u8);
    buf.push(((x >> 40u64) & 0xffu64) as u8);
    buf.push(((x >> 32u64) & 0xffu64) as u8);
    buf.push(((x >> 24u64) & 0xffu64) as u8);
    buf.push(((x >> 16u64) & 0xffu64) as u8);
    buf.push(((x >> 8u64) & 0xffu64) as u8);
    buf.push((x & 0xffu64) as u8);
    assert(buf@ =~= old(buf)@ + be64(x));
}

/// Reads the four big-endian bytes at `at`.
pub fn read_u32_be(buf: &[u8], at: usize) -> (r: u32)
    requires
        at + 4 <= buf@.len(),
    ensures
        r == u32_at(buf@, at as int),
{
    (buf[at] as u32) << 24u32 | (buf[at + 1] as u32) << 16u32 | (buf[at + 2] as u32) << 8u32 | (
    buf[at + 3] as u32)
}

/// Reads the eight big-endian bytes at `at`.
pub fn read_u64_be(buf: &[u8], at: usize) -> (r: u64)
    requires
        at + 8 <= buf@.len(),
    ensures
        r == u64_of_be(buf@, at as int),
{
    (buf[at] as u64) << 56u64 | (buf[at + 1] as u64) << 48u64 | (buf[at + 2] as u64) << 40u64 | (
    buf[at + 3] as u64) << 32u64 | (buf[at + 4] as u64) << 24u64 | (buf[at + 5] as u64) << 16u64
        | (buf[at + 6] as u64) << 8u64 | (buf[at + 7] as u64)
}

} // verus!
