//! Facts about the bit operations that PDU fields are packed with.
use vstd::prelude::*;

verus! {

/// Masks, shifts and ors of nibbles within a byte, as arithmetic.
pub proof fn lemma_nibbles(x: u8, y: u8)
    by (bit_vector)
    ensures
        x & 0x0F == x % 16,
        (x & 0xF0) >> 4u8 == x / 16,
        x >> 4u8 == x / 16,
        x << 4u8 == (x % 16) * 16,
        y < 16 ==> ((x << 4u8) | y) % 16 == y,
        y < 16 ==> ((x << 4u8) | y) / 16 == x % 16,
        x & 0x01 == x % 2,
        x & 0x80 == 0 <==> x < 0x80,
        x & 0x7F == x % 0x80,
        (x & 0xC0) >> 6u8 == x / 64,
        x >> 6u8 == x / 64,
        x & 0x3F == x % 64,
        x & 0xFC == (x / 4) * 4,
        (x & 0xFC) >> 2u8 == x / 4,
        x & 0x03 == x % 4,
        y < 4 ==> ((x << 6u8) | y) % 64 == y,
        y < 64 ==> ((x << 6u8) | y) / 64 == x % 4,
        x << 6u8 == (x % 4) * 64,
        x << 2u8 == (x % 64) * 4,
        x >> 2u8 == x / 4,
        y < 4 ==> ((x << 2u8) | y) % 4 == y,
        y < 4 ==> ((x << 2u8) | y) / 4 == x % 64,
{
}

/// Masks, shifts and ors of a 3-bit field above a 5-bit field, and of
/// single bits, as arithmetic.
pub proof fn lemma_three_five(x: u8, y: u8)
    by (bit_vector)
    ensures
        (x & 0xE0) >> 5u8 == x / 32,
        x >> 5u8 == x / 32,
        x & 0x1F == x % 32,
        x & 0x07 == x % 8,
        x & 0xE0 == (x / 32) * 32,
        x << 5u8 == (x % 8) * 32,
        y < 32 ==> ((x << 5u8) | y) % 32 == y,
        y < 32 ==> ((x << 5u8) | y) / 32 == x % 8,
        y < 32 ==> (x & 0xE0) | y == (x / 32) * 32 + y,
        (x & 0x08 != 0) == ((x / 8) % 2 == 1),
        x | 0x08 == (if (x / 8) % 2 == 1 { x as int } else { x + 8 }),
{
}

} // verus!
