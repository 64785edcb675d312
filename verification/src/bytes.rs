//! Conversions between integers and their big- and little-endian bytes.
use vstd::prelude::*;

verus! {

/// The integer that two bytes give, most significant first.
pub open spec fn be16(hi: u8, lo: u8) -> u16 {
    (hi as int * 256 + lo as int) as u16
}

/// The two bytes of `v`, most significant first.
pub open spec fn be16_bytes(v: u16) -> Seq<u8> {
    seq![(v / 256) as u8, (v % 256) as u8]
}

/// The two bytes of `v`, least significant first.
pub open spec fn le16_bytes(v: u16) -> Seq<u8> {
    seq![(v % 256) as u8, (v / 256) as u8]
}

/// The integer that four bytes give, most significant first.
pub open spec fn be32(b0: u8, b1: u8, b2: u8, b3: u8) -> u32 {
    (b0 as int * 0x100_0000 + b1 as int * 0x1_0000 + b2 as int * 0x100 + b3 as int) as u32
}

/// The four bytes of `v`, most significant first.
pub open spec fn be32_bytes(v: u32) -> Seq<u8> {
    seq![(v / 0x100_0000) as u8, (v / 0x1_0000 % 256) as u8, (v / 0x100 % 256) as u8, (v % 256) as u8]
}

/// The four bytes of `v`, least significant first.
pub open spec fn le32_bytes(v: u32) -> Seq<u8> {
    seq![(v % 256) as u8, (v / 0x100 % 256) as u8, (v / 0x1_0000 % 256) as u8, (v / 0x100_0000) as u8]
}

/// Joins two bytes into an integer, the first the most significant.
pub fn from_be16(hi: u8, lo: u8) -> (v: u16)
    ensures
        v == be16(hi, lo),
        v == hi as int * 256 + lo as int,
{
    let v = ((hi as u16) << 8u16) | (lo as u16);
    assert(((hi as u16) << 8u16) | (lo as u16) == hi as u16 * 256 + lo as u16) by (bit_vector);
    v
}

/// Joins two bytes into an integer, the first the least significant.
pub fn from_le16(lo: u8, hi: u8) -> (v: u16)
    ensures
        v == be16(hi, lo),
        v == hi as int * 256 + lo as int,
{
    from_be16(hi, lo)
}

/// Joins four bytes into an integer, the first the most significant.
pub fn from_be32(b0: u8, b1: u8, b2: u8, b3: u8) -> (v: u32)
    ensures
        v == be32(b0, b1, b2, b3),
        v == b0 as int * 0x100_0000 + b1 as int * 0x1_0000 + b2 as int * 0x100 + b3 as int,
{
    let v = ((b0 as u32) << 24u32) | ((b1 as u32) << 16u32) | ((b2 as u32) << 8u32) | (b3 as u32);
    assert(((b0 as u32) << 24u32) | ((b1 as u32) << 16u32) | ((b2 as u32) << 8u32) | (b3 as u32)
        == b0 as u32 * 0x100_0000 + b1 as u32 * 0x1_0000 + b2 as u32 * 0x100 + b3 as u32) by (bit_vector);
    v
}

/// Joins four bytes into an integer, the first the least significant.
pub fn from_le32(b0: u8, b1: u8, b2: u8, b3: u8) -> (v: u32)
    ensures
        v == be32(b3, b2, b1, b0),
{
    from_be32(b3, b2, b1, b0)
}

/// The two bytes of `v`, most significant first.
pub fn to_be16(v: u16) -> (b: [u8; 2])
    ensures
        b@ == be16_bytes(v),
        b[0] == v / 256,
        b[1] == v % 256,
{
    let hi = (v >> 8u16) as u8;
    let lo = (v & 0xffu16) as u8;
    assert((v >> 8u16) as u8 == v / 256) by (bit_vector);
    assert((v & 0xffu16) as u8 == v % 256) by (bit_vector);
    let b = [hi, lo];
    assert(b@ == be16_bytes(v));
    b
}

/// The two bytes of `v`, least significant first.
pub fn to_le16(v: u16) -> (b: [u8; 2])
    ensures
        b@ == le16_bytes(v),
        b[0] == v % 256,
        b[1] == v / 256,
{
    let be = to_be16(v);
    let b = [be[1], be[0]];
    assert(b@ == le16_bytes(v));
    b
}

/// The four bytes of `v`, most significant first.
pub fn to_be32(v: u32) -> (b: [u8; 4])
    ensures
        b@ == be32_bytes(v),
{
    let b0 = (v >> 24u32) as u8;
    let b1 = ((v >> 16u32) & 0xffu32) as u8;
    let b2 = ((v >> 8u32) & 0xffu32) as u8;
    let b3 = (v & 0xffu32) as u8;
    assert((v >> 24u32) as u8 == v / 0x100_0000) by (bit_vector);
    assert(((v >> 16u32) & 0xffu32) as u8 == v / 0x1_0000 % 256) by (bit_vector);
    assert(((v >> 8u32) & 0xffu32) as u8 == v / 0x100 % 256) by (bit_vector);
    assert((v & 0xffu32) as u8 == v % 256) by (bit_vector);
    let b = [b0, b1, b2, b3];
    assert(b@ == be32_bytes(v));
    b
}

/// The four bytes of `v`, least significant first.
pub fn to_le32(v: u32) -> (b: [u8; 4])
    ensures
        b@ == le32_bytes(v),
{
    let be = to_be32(v);
    let b = [be[3], be[2], be[1], be[0]];
    assert(b@ == le32_bytes(v));
    b
}

/// Reading back the bytes of `v` gives `v`.
pub proof fn lemma_be16_roundtrip(v: u16)
    ensures
        be16(be16_bytes(v)[0], be16_bytes(v)[1]) == v,
        be16(le16_bytes(v)[1], le16_bytes(v)[0]) == v,
{
}

/// Reading back the bytes of `v` gives `v`.
pub proof fn lemma_be32_roundtrip(v: u32)
    ensures
        be32(be32_bytes(v)[0], be32_bytes(v)[1], be32_bytes(v)[2], be32_bytes(v)[3]) == v,
        be32(le32_bytes(v)[3], le32_bytes(v)[2], le32_bytes(v)[1], le32_bytes(v)[0]) == v,
{
}

/// The 4 bytes of `s` starting at `at`.
pub fn take_array4(s: &[u8], at: usize) -> (a: [u8; 4])
    requires
        at + 4 <= s@.len(),
    ensures
        a@ == s@.subrange(at as int, at + 4),
{
    let a = [s[at], s[at + 1], s[at + 2], s[at + 3]];
    assert(a@ =~= s@.subrange(at as int, at + 4));
    a
}

/// The 6 bytes of `s` starting at `at`.
pub fn take_array6(s: &[u8], at: usize) -> (a: [u8; 6])
    requires
        at + 6 <= s@.len(),
    ensures
        a@ == s@.subrange(at as int, at + 6),
{
    let a = [s[at], s[at + 1], s[at + 2], s[at + 3], s[at + 4], s[at + 5]];
    assert(a@ =~= s@.subrange(at as int, at + 6));
    a
}

/// The 8 bytes of `s` starting at `at`.
pub fn take_array8(s: &[u8], at: usize) -> (a: [u8; 8])
    requires
        at + 8 <= s@.len(),
    ensures
        a@ == s@.subrange(at as int, at + 8),
{
    let a = [s[at], s[at + 1], s[at + 2], s[at + 3], s[at + 4], s[at + 5], s[at + 6], s[at + 7]];
    assert(a@ =~= s@.subrange(at as int, at + 8));
    a
}

/// The 13 bytes of `s` starting at `at`.
pub fn take_array13(s: &[u8], at: usize) -> (a: [u8; 13])
    requires
        at + 13 <= s@.len(),
    ensures
        a@ == s@.subrange(at as int, at + 13),
{
    let a = [s[at], s[at + 1], s[at + 2], s[at + 3], s[at + 4], s[at + 5], s[at + 6], s[at + 7], s[at + 8], s[at + 9], s[at + 10], s[at + 11], s[at + 12]];
    assert(a@ =~= s@.subrange(at as int, at + 13));
    a
}

/// The 16 bytes of `s` starting at `at`.
pub fn take_array16(s: &[u8], at: usize) -> (a: [u8; 16])
    requires
        at + 16 <= s@.len(),
    ensures
        a@ == s@.subrange(at as int, at + 16),
{
    let a = [s[at], s[at + 1], s[at + 2], s[at + 3], s[at + 4], s[at + 5], s[at + 6], s[at + 7], s[at + 8], s[at + 9], s[at + 10], s[at + 11], s[at + 12], s[at + 13], s[at + 14], s[at + 15]];
    assert(a@ =~= s@.subrange(at as int, at + 16));
    a
}

/// The 25 bytes of `s` starting at `at`.
pub fn take_array25(s: &[u8], at: usize) -> (a: [u8; 25])
    requires
        at + 25 <= s@.len(),
    ensures
        a@ == s@.subrange(at as int, at + 25),
{
    let a = [s[at], s[at + 1], s[at + 2], s[at + 3], s[at + 4], s[at + 5], s[at + 6], s[at + 7], s[at + 8], s[at + 9], s[at + 10], s[at + 11], s[at + 12], s[at + 13], s[at + 14], s[at + 15], s[at + 16], s[at + 17], s[at + 18], s[at + 19], s[at + 20], s[at + 21], s[at + 22], s[at + 23], s[at + 24]];
    assert(a@ =~= s@.subrange(at as int, at + 25));
    a
}

/// The 32 bytes of `s` starting at `at`.
pub fn take_array32(s: &[u8], at: usize) -> (a: [u8; 32])
    requires
        at + 32 <= s@.len(),
    ensures
        a@ == s@.subrange(at as int, at + 32),
{
    let a = [s[at], s[at + 1], s[at + 2], s[at + 3], s[at + 4], s[at + 5], s[at + 6], s[at + 7], s[at + 8], s[at + 9], s[at + 10], s[at + 11], s[at + 12], s[at + 13], s[at + 14], s[at + 15], s[at + 16], s[at + 17], s[at + 18], s[at + 19], s[at + 20], s[at + 21], s[at + 22], s[at + 23], s[at + 24], s[at + 25], s[at + 26], s[at + 27], s[at + 28], s[at + 29], s[at + 30], s[at + 31]];
    assert(a@ =~= s@.subrange(at as int, at + 32));
    a
}

} // verus!
