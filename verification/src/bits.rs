//! Bridges between the masks and shifts of the executable code and the
//! arithmetic in which the contracts are stated.

use vstd::prelude::*;

verus! {

/// The word whose upper byte is `high` and whose lower byte is `low`.
pub open spec fn join_bytes(high: u8, low: u8) -> u16 {
    (high as int * 256 + low as int) as u16
}

/// The upper byte of a word.
pub open spec fn high_byte(word: u16) -> u8 {
    (word / 256) as u8
}

/// The lower byte of a word.
pub open spec fn low_byte(word: u16) -> u8 {
    (word % 256) as u8
}

/// The lower byte of a word.
pub fn low(word: u16) -> (byte: u8)
    ensures
        byte == low_byte(word),
{
    (word % 256) as u8
}

/// Shifting a byte into the upper half of a word and or-ing in a lower byte
/// gives `high * 256 + low`, and the two bytes can be read back from it.
pub proof fn lemma_join_bytes(high: u8, low: u8)
    ensures
        ((high as u16) << 8) | (low as u16) == join_bytes(high, low),
        join_bytes(high, low) == high as int * 256 + low as int,
        high_byte(join_bytes(high, low)) == high,
        low_byte(join_bytes(high, low)) == low,
{
    assert(((high as u16) << 8) | (low as u16) == (high as u16) * 256 + (low as u16))
        by (bit_vector);
}

/// Truncating a word to a byte keeps the remainder by 256; shifting it right by
/// eight bits keeps the quotient.
pub proof fn lemma_split_word(word: u16)
    ensures
        word as u8 == low_byte(word),
        (word >> 8) as u8 == high_byte(word),
        (word & 0xFF) == word % 256,
        ((word & 0xFF00) >> 8) == word / 256,
        join_bytes(high_byte(word), low_byte(word)) == word,
{
    assert(word as u8 == word % 256 && (word >> 8) as u8 == word / 256 && (word & 0xFF) == word
        % 256 && ((word & 0xFF00) >> 8) == word / 256) by (bit_vector);
}

/// Masking a 32-bit value to 24, 18 or 16 bits keeps its remainder by the
/// matching power of two.
pub proof fn lemma_mask_low_bits(value: u32)
    ensures
        value & 0xFF_FFFF == value % 0x100_0000,
        value & 0x3_FFFF == value % 0x4_0000,
        value & 0xFFFF == value % 0x1_0000,
{
    assert(value & 0xFF_FFFF == value % 0x100_0000 && value & 0x3_FFFF == value % 0x4_0000 && value
        & 0xFFFF == value % 0x1_0000) by (bit_vector);
}

} // verus!
