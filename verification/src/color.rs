//! Packing of 8-bit RGBA channels into a single 32-bit word.

use vstd::prelude::*;

verus! {

/// The value of four channel bytes read as one big-endian 32-bit number.
pub open spec fn rgba_word(r: u8, g: u8, b: u8, a: u8) -> int {
    r * 0x1000000 + g * 0x10000 + b * 0x100 + a
}

/// Packs the first four bytes of `rgba` into one word, red in the highest
/// byte and alpha in the lowest.
pub fn pack_rgba8_to_u32(rgba: &[u8]) -> (value: u32)
    requires
        rgba@.len() >= 4,
    ensures
        value == rgba_word(rgba@[0], rgba@[1], rgba@[2], rgba@[3]),
{
    let r = rgba[0];
    let g = rgba[1];
    let b = rgba[2];
    let a = rgba[3];
    assert(((r as u32) << 24) | ((g as u32) << 16) | ((b as u32) << 8) | (a as u32)
        == r * 0x1000000 + g * 0x10000 + b * 0x100 + a) by (bit_vector);
    ((r as u32) << 24) | ((g as u32) << 16) | ((b as u32) << 8) | (a as u32)
}

/// Splits a 32-bit word back into its four channel bytes, highest byte first.
pub fn unpack_u32_to_rgba8(value: u32) -> (rgba: [u8; 4])
    ensures
        rgba@[0] == value / 0x1000000,
        rgba@[1] == (value / 0x10000) % 0x100,
        rgba@[2] == (value / 0x100) % 0x100,
        rgba@[3] == value % 0x100,
{
    let r = ((value >> 24) & 0xff) as u8;
    let g = ((value >> 16) & 0xff) as u8;
    let b = ((value >> 8) & 0xff) as u8;
    let a = (value & 0xff) as u8;
    assert((((value >> 24) & 0xff) as u8) == value / 0x1000000
        && (((value >> 16) & 0xff) as u8) == (value / 0x10000) % 0x100
        && (((value >> 8) & 0xff) as u8) == (value / 0x100) % 0x100
        && ((value & 0xff) as u8) == value % 0x100) by (bit_vector);
    [r, g, b, a]
}

/// Unpacking a packed word recovers the four channel bytes unchanged.
pub proof fn lemma_pack_unpack_round_trip(r: u8, g: u8, b: u8, a: u8)
    ensures
        rgba_word(r, g, b, a) / 0x1000000 == r,
        (rgba_word(r, g, b, a) / 0x10000) % 0x100 == g,
        (rgba_word(r, g, b, a) / 0x100) % 0x100 == b,
        rgba_word(r, g, b, a) % 0x100 == a,
{
    assert((r * 0x1000000 + g * 0x10000 + b * 0x100 + a) / 0x1000000 == r
        && ((r * 0x1000000 + g * 0x10000 + b * 0x100 + a) / 0x10000) % 0x100 == g
        && ((r * 0x1000000 + g * 0x10000 + b * 0x100 + a) / 0x100) % 0x100 == b
        && (r * 0x1000000 + g * 0x10000 + b * 0x100 + a) % 0x100 == a) by (bit_vector);
}

/// Packing the unpacked bytes of a word rebuilds the same word.
pub proof fn lemma_unpack_pack_round_trip(value: u32)
    ensures
        rgba_word(
            (value / 0x1000000) as u8,
            ((value / 0x10000) % 0x100) as u8,
            ((value / 0x100) % 0x100) as u8,
            (value % 0x100) as u8,
        ) == value,
{
    assert(((value / 0x1000000) as u8) * 0x1000000 + (((value / 0x10000) % 0x100) as u8) * 0x10000
        + (((value / 0x100) % 0x100) as u8) * 0x100 + ((value % 0x100) as u8) == value)
        by (bit_vector);
}

} // verus!
