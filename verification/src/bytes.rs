//! Little-endian integer encodings used by USB descriptors, SETUP packets
//! and the Great Communications Protocol.

use vstd::prelude::*;

verus! {

/// The two little-endian bytes of a `u16`.
pub open spec fn u16_le(x: u16) -> Seq<u8> {
    seq![(x % 256) as u8, (x / 256) as u8]
}

/// The four little-endian bytes of a `u32`.
pub open spec fn u32_le(x: u32) -> Seq<u8> {
    seq![
        (x % 256) as u8,
        ((x / 256) % 256) as u8,
        ((x / 65536) % 256) as u8,
        (x / 16777216) as u8,
    ]
}

/// The `u16` whose little-endian bytes are `lo`, `hi`.
pub open spec fn le16(lo: u8, hi: u8) -> u16 {
    (lo + 256 * hi) as u16
}

/// The `u32` whose little-endian bytes are the first four of `s`.
pub open spec fn le32(s: Seq<u8>) -> u32 {
    (s[0] + 256 * s[1] + 65536 * s[2] + 16777216 * s[3]) as u32
}

/// Decoding a `u16` from its own little-endian bytes gives it back.
pub proof fn lemma_u16_le_roundtrip(x: u16)
    ensures
        u16_le(x).len() == 2,
        le16(u16_le(x)[0], u16_le(x)[1]) == x,
{
}

/// Encoding the `u16` decoded from two bytes gives those bytes back.
pub proof fn lemma_le16_roundtrip(lo: u8, hi: u8)
    ensures
        u16_le(le16(lo, hi)) == seq![lo, hi],
{
    assert(u16_le(le16(lo, hi)) =~= seq![lo, hi]);
}

/// Decoding a `u32` from its own little-endian bytes gives it back.
pub proof fn lemma_u32_le_roundtrip(x: u32)
    ensures
        u32_le(x).len() == 4,
        le32(u32_le(x)) == x,
{
}

/// Builds a `u16` from its little-endian bytes.
pub fn u16_from_le(lo: u8, hi: u8) -> (r: u16)
    ensures
        r == le16(lo, hi),
        r == lo + 256 * hi,
{
    (lo as u16) + (hi as u16) * 256
}

/// Splits a `u16` into its little-endian bytes.
pub fn u16_to_le(x: u16) -> (r: (u8, u8))
    ensures
        seq![r.0, r.1] == u16_le(x),
        r.0 == x % 256,
        r.1 == x / 256,
{
    ((x % 256) as u8, (x / 256) as u8)
}

/// Reads the little-endian `u32` at `offset` in `bytes`.
pub fn u32_from_le_at(bytes: &[u8], offset: usize) -> (r: u32)
    requires
        offset + 4 <= bytes@.len(),
    ensures
        r == le32(bytes@.subrange(offset as int, offset + 4)),
{
    let b0 = bytes[offset] as u32;
    let b1 = bytes[offset + 1] as u32;
    let b2 = bytes[offset + 2] as u32;
    let b3 = bytes[offset + 3] as u32;
    b0 + b1 * 256 + b2 * 65536 + b3 * 16777216
}

/// Appends the little-endian bytes of `x` to `v`.
pub fn push_u16_le(v: &mut Vec<u8>, x: u16)
    ensures
        final(v)@ == old(v)@ + u16_le(x),
{
    v.push((x % 256) as u8);
    v.push((x / 256) as u8);
    assert(final(v)@ =~= old(v)@ + u16_le(x));
}

/// Appends the little-endian bytes of `x` to `v`.
pub fn push_u32_le(v: &mut Vec<u8>, x: u32)
    ensures
        final(v)@ == old(v)@ + u32_le(x),
{
    v.push((x % 256) as u8);
    v.push(((x / 256) % 256) as u8);
    v.push(((x / 65536) % 256) as u8);
    v.push((x / 16777216) as u8);
    assert(final(v)@ =~= old(v)@ + u32_le(x));
}

/// The little-endian encoding of a `u32`, as a vector.
pub fn u32_to_le_vec(x: u32) -> (r: Vec<u8>)
    ensures
        r@ == u32_le(x),
{
    let mut v: Vec<u8> = Vec::new();
    push_u32_le(&mut v, x);
    assert(v@ =~= u32_le(x));
    v
}

/// A copy of a byte slice.
pub fn copy_bytes(s: &[u8]) -> (r: Vec<u8>)
    ensures
        r@ == s@,
{
    let mut v: Vec<u8> = Vec::new();
    let mut i: usize = 0;
    while i < s.len()
        invariant
            i <= s@.len(),
            v@ == s@.subrange(0, i as int),
        decreases s@.len() - i,
    {
        v.push(s[i]);
        i = i + 1;
        assert(v@ =~= s@.subrange(0, i as int));
    }
    assert(s@.subrange(0, s@.len() as int) =~= s@);
    v
}

/// The first `min(n, len)` bytes of `s`.
pub fn take_bytes(s: &[u8], n: usize) -> (r: Vec<u8>)
    ensures
        r@ == s@.take(if n < s@.len() { n as int } else { s@.len() as int }),
{
    let end: usize = if n < s.len() { n } else { s.len() };
    let mut v: Vec<u8> = Vec::new();
    let mut i: usize = 0;
    while i < end
        invariant
            end <= s@.len(),
            i <= end,
            v@ == s@.subrange(0, i as int),
        decreases end - i,
    {
        v.push(s[i]);
        i = i + 1;
        assert(v@ =~= s@.subrange(0, i as int));
    }
    assert(v@ =~= s@.take(end as int));
    v
}

} // verus!
