//! Little-endian encoding of the integers that appear on the wire.

use vstd::prelude::*;

verus! {

/// The two bytes of `x`, least significant first.
pub open spec fn le_u16(x: u16) -> Seq<u8> {
    seq![(x % 256) as u8, (x / 256) as u8]
}

/// The four bytes of `x`, least significant first.
pub open spec fn le_u32(x: u32) -> Seq<u8> {
    seq![
        (x % 256) as u8,
        (x / 0x100 % 256) as u8,
        (x / 0x1_0000 % 256) as u8,
        (x / 0x100_0000) as u8,
    ]
}

/// The eight bytes of `x`, least significant first.
pub open spec fn le_u64(x: u64) -> Seq<u8> {
    le_u32((x % 0x1_0000_0000) as u32) + le_u32((x / 0x1_0000_0000) as u32)
}

/// The number whose little-endian bytes are the first two of `s`.
pub open spec fn u16_of_le(s: Seq<u8>) -> u16
    recommends
        s.len() >= 2,
{
    (s[0] + s[1] * 256) as u16
}

/// The number whose little-endian bytes are the first four of `s`.
pub open spec fn u32_of_le(s: Seq<u8>) -> u32
    recommends
        s.len() >= 4,
{
    (s[0] + s[1] * 0x100 + s[2] * 0x1_0000 + s[3] * 0x100_0000) as u32
}

/// The number whose little-endian bytes are the first eight of `s`.
pub open spec fn u64_of_le(s: Seq<u8>) -> u64
    recommends
        s.len() >= 8,
{
    (u32_of_le(s) + u32_of_le(s.skip(4)) * 0x1_0000_0000) as u64
}

/// Decoding undoes encoding.
pub proof fn lemma_le_u16_round_trip(x: u16)
    ensures
        le_u16(x).len() == 2,
        u16_of_le(le_u16(x)) == x,
{
}

/// Decoding undoes encoding.
pub proof fn lemma_le_u32_round_trip(x: u32)
    ensures
        le_u32(x).len() == 4,
        u32_of_le(le_u32(x)) == x,
{
}

/// Decoding undoes encoding.
pub proof fn lemma_le_u64_round_trip(x: u64)
    ensures
        le_u64(x).len() == 8,
        u64_of_le(le_u64(x)) == x,
{
    let lo = (x % 0x1_0000_0000) as u32;
    let hi = (x / 0x1_0000_0000) as u32;
    lemma_le_u32_round_trip(lo);
    lemma_le_u32_round_trip(hi);
    assert(le_u64(x).skip(4) =~= le_u32(hi));
    assert(u32_of_le(le_u64(x)) == u32_of_le(le_u32(lo)));
}

/// Encoding undoes decoding.
pub proof fn lemma_u16_of_le_round_trip(s: Seq<u8>)
    requires
        s.len() >= 2,
    ensures
        le_u16(u16_of_le(s)) == s.take(2),
{
    assert(le_u16(u16_of_le(s)) =~= s.take(2));
}

/// Encoding undoes decoding.
pub proof fn lemma_u32_of_le_round_trip(s: Seq<u8>)
    requires
        s.len() >= 4,
    ensures
        le_u32(u32_of_le(s)) == s.take(4),
{
    assert(le_u32(u32_of_le(s)) =~= s.take(4));
}

/// Encoding undoes decoding.
pub proof fn lemma_u64_of_le_round_trip(s: Seq<u8>)
    requires
        s.len() >= 8,
    ensures
        le_u64(u64_of_le(s)) == s.take(8),
{
    let lo = u32_of_le(s);
    let hi = u32_of_le(s.skip(4));
    let x = u64_of_le(s);
    assert((x % 0x1_0000_0000) as u32 == lo);
    assert((x / 0x1_0000_0000) as u32 == hi);
    lemma_u32_of_le_round_trip(s);
    lemma_u32_of_le_round_trip(s.skip(4));
    assert(le_u64(x) =~= s.take(4) + s.skip(4).take(4));
    assert(s.take(4) + s.skip(4).take(4) =~= s.take(8));
}

/// The bytes of a 32-bit field that was read at `at` are those that stand there.
pub proof fn lemma_field_u32(s: Seq<u8>, at: int)
    requires
        0 <= at,
        at + 4 <= s.len(),
    ensures
        le_u32(u32_of_le(s.skip(at))) == s.subrange(at, at + 4),
{
    lemma_u32_of_le_round_trip(s.skip(at));
    assert(s.skip(at).take(4) =~= s.subrange(at, at + 4));
}

/// The bytes of a 64-bit field that was read at `at` are those that stand there.
pub proof fn lemma_field_u64(s: Seq<u8>, at: int)
    requires
        0 <= at,
        at + 8 <= s.len(),
    ensures
        le_u64(u64_of_le(s.skip(at))) == s.subrange(at, at + 8),
{
    lemma_u64_of_le_round_trip(s.skip(at));
    assert(s.skip(at).take(8) =~= s.subrange(at, at + 8));
}

/// Two numbers with the same bytes are the same number.
pub proof fn lemma_le_injective(a32: u32, b32: u32, a64: u64, b64: u64)
    ensures
        le_u32(a32) == le_u32(b32) ==> a32 == b32,
        le_u64(a64) == le_u64(b64) ==> a64 == b64,
{
    lemma_le_u32_round_trip(a32);
    lemma_le_u32_round_trip(b32);
    lemma_le_u64_round_trip(a64);
    lemma_le_u64_round_trip(b64);
}

/// Appends the little-endian bytes of `x` to `out`.
pub fn put_u16(out: &mut Vec<u8>, x: u16)
    ensures
        final(out)@ == old(out)@ + le_u16(x),
{
    out.push((x % 256) as u8);
    out.push((x / 256) as u8);
    assert(out@ =~= old(out)@ + le_u16(x));
}

/// Appends the little-endian bytes of `x` to `out`.
pub fn put_u32(out: &mut Vec<u8>, x: u32)
    ensures
        final(out)@ == old(out)@ + le_u32(x),
{
    out.push((x % 256) as u8);
    out.push((x / 0x100 % 256) as u8);
    out.push((x / 0x1_0000 % 256) as u8);
    out.push((x / 0x100_0000) as u8);
    assert(out@ =~= old(out)@ + le_u32(x));
}

/// Appends the little-endian bytes of `x` to `out`.
pub fn put_u64(out: &mut Vec<u8>, x: u64)
    ensures
        final(out)@ == old(out)@ + le_u64(x),
{
    put_u32(out, (x % 0x1_0000_0000) as u32);
    put_u32(out, (x / 0x1_0000_0000) as u32);
    assert(out@ =~= old(out)@ + le_u64(x));
}

/// Reads the 16-bit number at `at`.
pub fn get_u16(bytes: &[u8], at: usize) -> (r: u16)
    requires
        at + 2 <= bytes@.len(),
    ensures
        r == u16_of_le(bytes@.skip(at as int)),
{
    (bytes[at] as u16) + (bytes[at + 1] as u16) * 256
}

/// Reads the 32-bit number at `at`.
pub fn get_u32(bytes: &[u8], at: usize) -> (r: u32)
    requires
        at + 4 <= bytes@.len(),
    ensures
        r == u32_of_le(bytes@.skip(at as int)),
{
    (bytes[at] as u32) + (bytes[at + 1] as u32) * 0x100 + (bytes[at + 2] as u32) * 0x1_0000 + (
    bytes[at + 3] as u32) * 0x100_0000
}

/// Reads the 64-bit number at `at`.
pub fn get_u64(bytes: &[u8], at: usize) -> (r: u64)
    requires
        at + 8 <= bytes@.len(),
    ensures
        r == u64_of_le(bytes@.skip(at as int)),
{
    let len: usize = bytes.len();
    let lo: u32 = get_u32(bytes, at);
    let hi: u32 = get_u32(bytes, at + 4);
    assert(bytes@.skip(at as int).skip(4) =~= bytes@.skip(at + 4));
    (lo as u64) + (hi as u64) * 0x1_0000_0000
}

} // verus!
