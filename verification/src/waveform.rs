//! The layout of the table that the DMA streams to the DAC: one 32-bit word
//! per point, the X code in bits 0..11 and the Y code in bits 16..27, so that
//! a single write to the dual holding register loads both channels at once.

use vstd::prelude::*;

verus! {

/// Number of points in the table; every shape is sampled at this many points.
pub const POINTS: usize = 1024;

/// The largest 12-bit DAC code.
pub const DAC_MAX_CODE: u32 = 4095;

/// The word for one point: `x` in the low half-word, `y` in the high one.
pub open spec fn spec_word(x: u32, y: u32) -> u32 {
    (y << 16u32) | x
}

/// Packs the codes of channel 1 (`x`) and channel 2 (`y`) into one word.
pub fn word(x: u32, y: u32) -> (w: u32)
    ensures
        w == spec_word(x, y),
        x < 0x10000 && y < 0x10000 ==> w == y * 0x10000 + x,
{
    let w = (y << 16u32) | x;
    proof {
        if x < 0x10000 && y < 0x10000 {
            lemma_word_value(x, y);
        }
    }
    w
}

/// For half-word codes the word is `y * 65536 + x`.
pub proof fn lemma_word_value(x: u32, y: u32)
    requires
        x < 0x10000,
        y < 0x10000,
    ensures
        spec_word(x, y) == y * 0x10000 + x,
{
    assert(((y << 16u32) | x) == y * 0x10000 + x) by (bit_vector)
        requires
            x < 0x10000,
            y < 0x10000,
    ;
}

/// Channel 1 reads bits 0..11 of a word and channel 2 bits 16..27: for 12-bit
/// codes these give back exactly the two codes that were packed, and no other
/// bit of the word is set.
pub proof fn lemma_word_fields(x: u32, y: u32)
    requires
        x <= DAC_MAX_CODE,
        y <= DAC_MAX_CODE,
    ensures
        spec_word(x, y) & 0xFFFu32 == x,
        (spec_word(x, y) >> 16u32) & 0xFFFu32 == y,
        spec_word(x, y) & 0xF000F000u32 == 0,
{
    assert(((y << 16u32) | x) & 0xFFFu32 == x) by (bit_vector)
        requires
            x <= 4095,
            y <= 4095,
    ;
    assert((((y << 16u32) | x) >> 16u32) & 0xFFFu32 == y) by (bit_vector)
        requires
            x <= 4095,
            y <= 4095,
    ;
    assert(((y << 16u32) | x) & 0xF000F000u32 == 0) by (bit_vector)
        requires
            x <= 4095,
            y <= 4095,
    ;
}

} // verus!
