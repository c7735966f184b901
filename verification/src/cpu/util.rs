//! Bit and byte helpers shared by the processor modules.

use vstd::prelude::*;

verus! {

/// Whether bit `n` of `value` is set, counting from the least significant bit.
pub open spec fn spec_nth_bit(value: u8, n: u8) -> bool {
    (value >> n) & 1 == 1
}

/// Tests bit `n` of `value`, counting from the least significant bit.
pub fn nth_bit(value: u8, n: u8) -> (set: bool)
    requires
        n < 8,
    ensures
        set == spec_nth_bit(value, n),
        n == 7 ==> set == (value >= 0x80),
{
    proof {
        lemma_top_bit_is_sign(value);
    }
    (value >> n) & 1 == 1
}

/// Bit 7 of a byte is set exactly when the byte, read as unsigned, is at least 128.
pub proof fn lemma_top_bit_is_sign(value: u8)
    ensures
        spec_nth_bit(value, 7) <==> value >= 0x80,
{
    assert(((value >> 7u8) & 1 == 1) <==> value >= 0x80) by (bit_vector);
}

/// The 16-bit word whose low byte is `lo` and whose high byte is `hi`.
pub open spec fn spec_word(lo: u8, hi: u8) -> u16 {
    (hi as int * 256 + lo as int) as u16
}

/// The high byte of a 16-bit word.
pub open spec fn spec_high_byte(word: u16) -> u8 {
    (word as int / 256) as u8
}

/// The low byte of a 16-bit word.
pub open spec fn spec_low_byte(word: u16) -> u8 {
    (word as int % 256) as u8
}

/// Assembles a 16-bit word from its low and high bytes (little-endian order).
pub fn word_from_bytes(lo: u8, hi: u8) -> (word: u16)
    ensures
        word == spec_word(lo, hi),
{
    (hi as u16) * 256 + (lo as u16)
}

/// Extracts the high byte of a 16-bit word.
pub fn high_byte(word: u16) -> (hi: u8)
    ensures
        hi == spec_high_byte(word),
{
    (word / 256) as u8
}

/// Extracts the low byte of a 16-bit word.
pub fn low_byte(word: u16) -> (lo: u8)
    ensures
        lo == spec_low_byte(word),
{
    (word % 256) as u8
}

/// Splitting a word into its bytes and assembling them again gives the word back.
pub proof fn lemma_word_of_its_bytes(word: u16)
    ensures
        spec_word(spec_low_byte(word), spec_high_byte(word)) == word,
{
}

} // verus!
