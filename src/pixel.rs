//! Packing of three channel levels into one `0xRRGGBB` word, and back.

use vstd::prelude::*;

verus! {

/// The word that `pack_rgb24` builds: red shifted into bits 16.., green into
/// bits 8.., blue as it is, all or-ed together with `u32` shift semantics.
/// Levels are not clamped: a level above 255 spills into the channel above it,
/// and bits shifted past bit 31 are lost.
pub open spec fn rgb24(r: u32, g: u32, b: u32) -> u32 {
    (r << 16u32) | (g << 8u32) | b
}

/// The red byte of a packed word.
pub open spec fn red_of(word: u32) -> u8 {
    ((word >> 16u32) & 0xffu32) as u8
}

/// The green byte of a packed word.
pub open spec fn green_of(word: u32) -> u8 {
    ((word >> 8u32) & 0xffu32) as u8
}

/// The blue byte of a packed word.
pub open spec fn blue_of(word: u32) -> u8 {
    (word & 0xffu32) as u8
}

/// Packs three channel levels into a 24-bit RGB word.
pub fn pack_rgb24(r: u32, g: u32, b: u32) -> (word: u32)
    ensures
        word == rgb24(r, g, b),
        r < 256 && g < 256 && b < 256 ==> word == r * 65536 + g * 256 + b,
{
    proof {
        lemma_rgb24_in_range(r, g, b);
    }
    (r << 16u32) | (g << 8u32) | b
}

/// The three bytes of a packed word, red first.
pub fn unpack_rgb24(word: u32) -> (c: (u8, u8, u8))
    ensures
        c.0 == red_of(word),
        c.1 == green_of(word),
        c.2 == blue_of(word),
        c.0 == (word / 65536) % 256,
        c.1 == (word / 256) % 256,
        c.2 == word % 256,
{
    proof {
        assert(((word >> 16u32) & 0xffu32) == (word / 65536) % 256) by (bit_vector);
        assert(((word >> 8u32) & 0xffu32) == (word / 256) % 256) by (bit_vector);
        assert((word & 0xffu32) == word % 256) by (bit_vector);
    }
    (((word >> 16u32) & 0xffu32) as u8, ((word >> 8u32) & 0xffu32) as u8, (word & 0xffu32) as u8)
}

/// The raw 8-bit RGB bytes of a row-major buffer of packed words: three bytes
/// per pixel, red first, pixels in buffer order. This is the layout that an
/// 8-bit-per-channel image encoder takes.
pub fn rgb_bytes(buffer: &Vec<u32>) -> (bytes: Vec<u8>)
    requires
        buffer.len() * 3 <= usize::MAX,
    ensures
        bytes.len() == 3 * buffer.len(),
        forall|i: int|
            0 <= i < buffer.len() ==> {
                &&& bytes[3 * i] == red_of(#[trigger] buffer[i])
                &&& bytes[3 * i + 1] == green_of(buffer[i])
                &&& bytes[3 * i + 2] == blue_of(buffer[i])
            },
{
    let mut bytes: Vec<u8> = Vec::with_capacity(buffer.len() * 3);
    let mut i: usize = 0;
    while i < buffer.len()
        invariant
            i <= buffer.len(),
            buffer.len() * 3 <= usize::MAX,
            bytes.len() == 3 * i,
            forall|j: int|
                0 <= j < i ==> {
                    &&& bytes[3 * j] == red_of(#[trigger] buffer[j])
                    &&& bytes[3 * j + 1] == green_of(buffer[j])
                    &&& bytes[3 * j + 2] == blue_of(buffer[j])
                },
        decreases buffer.len() - i,
    {
        let (r, g, b) = unpack_rgb24(buffer[i]);
        bytes.push(r);
        bytes.push(g);
        bytes.push(b);
        i = i + 1;
    }
    bytes
}

/// With every level within a byte, the packed word is the base-256 number
/// `r g b` and stays below `2^24`.
pub proof fn lemma_rgb24_in_range(r: u32, g: u32, b: u32)
    ensures
        r < 256 && g < 256 && b < 256 ==> rgb24(r, g, b) == r * 65536 + g * 256 + b,
        r < 256 && g < 256 && b < 256 ==> rgb24(r, g, b) < 0x100_0000,
{
    assert(r < 256 && g < 256 && b < 256 ==> ((r << 16u32) | (g << 8u32) | b) == r * 65536 + g
        * 256 + b) by (bit_vector);
}

/// Unpacking a packed word gives back the three levels, whenever each of them
/// fits in a byte.
pub proof fn lemma_unpack_pack(r: u32, g: u32, b: u32)
    requires
        r < 256,
        g < 256,
        b < 256,
    ensures
        red_of(rgb24(r, g, b)) == r,
        green_of(rgb24(r, g, b)) == g,
        blue_of(rgb24(r, g, b)) == b,
{
    let w = rgb24(r, g, b);
    assert(w == ((r << 16u32) | (g << 8u32) | b));
    assert(w == ((r << 16u32) | (g << 8u32) | b) && r < 256 && g < 256 && b < 256 ==> ((w
        >> 16u32) & 0xffu32) == r && ((w >> 8u32) & 0xffu32) == g && (w & 0xffu32) == b) by (bit_vector);
}

} // verus!
