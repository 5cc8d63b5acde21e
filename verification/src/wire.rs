//! Little-endian encoding of 32-bit words, the only integer width on the wire.

use vstd::prelude::*;

verus! {

/// The four bytes of `x`, least significant first.
pub open spec fn u32_le(x: u32) -> Seq<u8> {
    seq![
        (x % 256) as u8,
        ((x / 256) % 256) as u8,
        ((x / 65536) % 256) as u8,
        ((x / 16777216) % 256) as u8,
    ]
}

/// The word whose little-endian bytes are `b0`, `b1`, `b2`, `b3`.
pub open spec fn u32_of_bytes(b0: u8, b1: u8, b2: u8, b3: u8) -> u32 {
    (b0 as int + 256 * (b1 as int) + 65536 * (b2 as int) + 16777216 * (b3 as int)) as u32
}

/// The word stored little-endian in `bytes` at offset `at`.
pub open spec fn u32_at(bytes: Seq<u8>, at: int) -> u32
    recommends
        0 <= at,
        at + 4 <= bytes.len(),
{
    u32_of_bytes(bytes[at], bytes[at + 1], bytes[at + 2], bytes[at + 3])
}

/// Decoding the encoding of a word gives the word back.
pub proof fn lemma_u32_le_roundtrip(x: u32)
    ensures
        u32_le(x).len() == 4,
        u32_at(u32_le(x), 0) == x,
{
}

/// A word placed anywhere in a byte string reads back from that place.
pub proof fn lemma_u32_at_concat(before: Seq<u8>, x: u32, after: Seq<u8>)
    ensures
        u32_at(before + u32_le(x) + after, before.len() as int) == x,
{
    let s = before + u32_le(x) + after;
    let n = before.len() as int;
    assert(s[n] == u32_le(x)[0]);
    assert(s[n + 1] == u32_le(x)[1]);
    assert(s[n + 2] == u32_le(x)[2]);
    assert(s[n + 3] == u32_le(x)[3]);
}

/// Reads the word stored little-endian in `data` at offset `at`.
pub fn read_u32_le(data: &[u8], at: usize) -> (x: u32)
    requires
        at + 4 <= data@.len(),
    ensures
        x == u32_at(data@, at as int),
{
    let b0: u32 = data[at] as u32;
    let b1: u32 = data[at + 1] as u32;
    let b2: u32 = data[at + 2] as u32;
    let b3: u32 = data[at + 3] as u32;
    b0 + 256 * b1 + 65536 * b2 + 16777216 * b3
}

/// Appends the four little-endian bytes of `x` to `buf`.
pub fn push_u32_le(buf: &mut Vec<u8>, x: u32)
    ensures
        final(buf)@ == old(buf)@ + u32_le(x),
{
    buf.push((x % 256) as u8);
    buf.push(((x / 256) % 256) as u8);
    buf.push(((x / 65536) % 256) as u8);
    buf.push(((x / 16777216) % 256) as u8);
    assert(buf@ =~= old(buf)@ + u32_le(x));
}

/// Stores the four little-endian bytes of `x` in `buf` at offset `at`.
pub fn write_u32_le<const N: usize>(buf: &mut [u8; N], at: usize, x: u32)
    requires
        at + 4 <= N,
    ensures
        final(buf)@ == old(buf)@.subrange(0, at as int) + u32_le(x) + old(buf)@.subrange(
            at + 4,
            N as int,
        ),
{
    buf[at] = (x % 256) as u8;
    buf[at + 1] = ((x / 256) % 256) as u8;
    buf[at + 2] = ((x / 65536) % 256) as u8;
    buf[at + 3] = ((x / 16777216) % 256) as u8;
    assert(buf@ =~= old(buf)@.subrange(0, at as int) + u32_le(x) + old(buf)@.subrange(
        at + 4,
        N as int,
    ));
}

} // verus!
