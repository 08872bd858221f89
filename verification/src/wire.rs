//! Big-endian 32-bit integers on the wire.
use vstd::prelude::*;

verus! {

/// The big-endian bytes of `x`.
pub open spec fn be_u32_bytes(x: u32) -> Seq<u8> {
    seq![(x >> 24u32) as u8, ((x >> 16u32) & 0xFFu32) as u8, ((x >> 8u32) & 0xFFu32) as u8, (x & 0xFFu32) as u8]
}

/// The `u32` whose big-endian bytes are `b0 b1 b2 b3`.
pub open spec fn be_u32_value(b0: u8, b1: u8, b2: u8, b3: u8) -> u32 {
    ((b0 as u32) << 24u32) | ((b1 as u32) << 16u32) | ((b2 as u32) << 8u32) | (b3 as u32)
}

/// Reading back the big-endian bytes of `x` gives `x`.
pub proof fn lemma_be_u32_roundtrip(x: u32)
    ensures
        be_u32_value(be_u32_bytes(x)[0], be_u32_bytes(x)[1], be_u32_bytes(x)[2], be_u32_bytes(x)[3]) == x,
{
    let b0 = (x >> 24u32) as u8;
    let b1 = ((x >> 16u32) & 0xFFu32) as u8;
    let b2 = ((x >> 8u32) & 0xFFu32) as u8;
    let b3 = (x & 0xFFu32) as u8;
    assert(((b0 as u32) << 24u32) | ((b1 as u32) << 16u32) | ((b2 as u32) << 8u32) | (b3 as u32) == x) by (bit_vector)
        requires
            b0 == (x >> 24u32) as u8,
            b1 == ((x >> 16u32) & 0xFFu32) as u8,
            b2 == ((x >> 8u32) & 0xFFu32) as u8,
            b3 == (x & 0xFFu32) as u8,
    ;
}

/// Append the big-endian bytes of `x` to `buf`.
pub fn push_be_u32(buf: &mut Vec<u8>, x: u32)
    ensures
        final(buf)@ == old(buf)@ + be_u32_bytes(x),
{
    buf.push((x >> 24u32) as u8);
    buf.push(((x >> 16u32) & 0xFFu32) as u8);
    buf.push(((x >> 8u32) & 0xFFu32) as u8);
    buf.push((x & 0xFFu32) as u8);
    assert(buf@ =~= old(buf)@ + be_u32_bytes(x));
}

/// The `u32` whose big-endian bytes are `b0 b1 b2 b3`.
pub fn u32_from_be(b0: u8, b1: u8, b2: u8, b3: u8) -> (r: u32)
    ensures
        r == be_u32_value(b0, b1, b2, b3),
{
    ((b0 as u32) << 24u32) | ((b1 as u32) << 16u32) | ((b2 as u32) << 8u32) | (b3 as u32)
}

/// Append the bytes of `src` to `buf`.
pub fn extend_from_slice(buf: &mut Vec<u8>, src: &[u8])
    ensures
        final(buf)@ == old(buf)@ + src@,
{
    let mut i: usize = 0;
    while i < src.len()
        invariant
            0 <= i <= src@.len(),
            buf@ == old(buf)@ + src@.take(i as int),
        decreases src@.len() - i,
    {
        buf.push(src[i]);
        proof {
            assert(src@.take(i + 1) =~= src@.take(i as int).push(src@[i as int]));
        }
        i = i + 1;
    }
    assert(src@.take(src@.len() as int) =~= src@);
}

} // verus!
