//! Little-endian encoding of unsigned integers.
use vstd::prelude::*;

verus! {

/// The eight little-endian bytes of `v`.
pub open spec fn le_bytes(v: u64) -> Seq<u8> {
    seq![
        (v & 0xff) as u8,
        ((v >> 8u64) & 0xff) as u8,
        ((v >> 16u64) & 0xff) as u8,
        ((v >> 24u64) & 0xff) as u8,
        ((v >> 32u64) & 0xff) as u8,
        ((v >> 40u64) & 0xff) as u8,
        ((v >> 48u64) & 0xff) as u8,
        ((v >> 56u64) & 0xff) as u8,
    ]
}

/// The value of the first eight bytes of `b`, read little-endian.
pub open spec fn le_u64(b: Seq<u8>) -> u64
    recommends
        b.len() >= 8,
{
    le_u64_of(b[0], b[1], b[2], b[3], b[4], b[5], b[6], b[7])
}

pub open spec fn le_u64_of(b0: u8, b1: u8, b2: u8, b3: u8, b4: u8, b5: u8, b6: u8, b7: u8) -> u64 {
    (b0 as u64) | ((b1 as u64) << 8u64) | ((b2 as u64) << 16u64) | ((b3 as u64) << 24u64) | ((
    b4 as u64) << 32u64) | ((b5 as u64) << 40u64) | ((b6 as u64) << 48u64) | ((b7 as u64)
        << 56u64)
}

/// Reading back the bytes of a value gives the value.
pub proof fn lemma_le_round_trip(v: u64)
    ensures
        le_u64(le_bytes(v)) == v,
{
    let b = le_bytes(v);
    assert(le_u64_of(
        (v & 0xff) as u8,
        ((v >> 8u64) & 0xff) as u8,
        ((v >> 16u64) & 0xff) as u8,
        ((v >> 24u64) & 0xff) as u8,
        ((v >> 32u64) & 0xff) as u8,
        ((v >> 40u64) & 0xff) as u8,
        ((v >> 48u64) & 0xff) as u8,
        ((v >> 56u64) & 0xff) as u8,
    ) == v) by (bit_vector);
}

/// Reads eight bytes starting at `start` as a little-endian integer.
pub fn read_le_u64(src: &[u8], start: usize) -> (r: u64)
    requires
        start + 8 <= src@.len(),
    ensures
        r == le_u64(src@.subrange(start as int, start + 8)),
{
    let len = src.len();
    assert(start + 8 <= len);
    let ghost s = src@.subrange(start as int, start + 8);
    assert(s[0] == src@[start as int] && s[7] == src@[start + 7]);
    (src[start] as u64) | ((src[start + 1] as u64) << 8u64) | ((src[start + 2] as u64) << 16u64)
        | ((src[start + 3] as u64) << 24u64) | ((src[start + 4] as u64) << 32u64) | ((src[start
        + 5] as u64) << 40u64) | ((src[start + 6] as u64) << 48u64) | ((src[start + 7] as u64)
        << 56u64)
}

/// Writes the little-endian bytes of `v` at `start`, leaving the rest of `dst` as it was.
pub fn write_le_u64(dst: &mut [u8], start: usize, v: u64)
    requires
        start + 8 <= old(dst)@.len(),
    ensures
        final(dst)@ == old(dst)@.subrange(0, start as int) + le_bytes(v) + old(dst)@.subrange(
            start + 8,
            old(dst)@.len() as int,
        ),
{
    let len = dst.len();
    assert(start + 8 <= len);
    dst[start] = (v & 0xff) as u8;
    dst[start + 1] = ((v >> 8u64) & 0xff) as u8;
    dst[start + 2] = ((v >> 16u64) & 0xff) as u8;
    dst[start + 3] = ((v >> 24u64) & 0xff) as u8;
    dst[start + 4] = ((v >> 32u64) & 0xff) as u8;
    dst[start + 5] = ((v >> 40u64) & 0xff) as u8;
    dst[start + 6] = ((v >> 48u64) & 0xff) as u8;
    dst[start + 7] = ((v >> 56u64) & 0xff) as u8;
    assert(dst@ =~= old(dst)@.subrange(0, start as int) + le_bytes(v) + old(dst)@.subrange(
        start + 8,
        old(dst)@.len() as int,
    ));
}

/// Appends the little-endian bytes of `v`.
pub fn push_le_u64(dst: &mut Vec<u8>, v: u64)
    ensures
        final(dst)@ == old(dst)@ + le_bytes(v),
{
    dst.push((v & 0xff) as u8);
    dst.push(((v >> 8u64) & 0xff) as u8);
    dst.push(((v >> 16u64) & 0xff) as u8);
    dst.push(((v >> 24u64) & 0xff) as u8);
    dst.push(((v >> 32u64) & 0xff) as u8);
    dst.push(((v >> 40u64) & 0xff) as u8);
    dst.push(((v >> 48u64) & 0xff) as u8);
    dst.push(((v >> 56u64) & 0xff) as u8);
    assert(dst@ =~= old(dst)@ + le_bytes(v));
}

} // verus!
