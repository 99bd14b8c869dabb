//! Single bits and four-bit fields of a 32-bit register word.

use vstd::prelude::*;

verus! {

/// Whether bit `bit` of `word` is set.
pub open spec fn bit_is_set(word: u32, bit: u8) -> bool {
    word & (1u32 << bit) != 0
}

/// `word` with bit `bit` set if `on`, cleared if not. The other bits stay.
pub open spec fn with_bit(word: u32, bit: u8, on: bool) -> u32 {
    if on {
        word | (1u32 << bit)
    } else {
        word & !(1u32 << bit)
    }
}

/// `word` with bit `bit` inverted. The other bits stay.
pub open spec fn with_bit_flipped(word: u32, bit: u8) -> u32 {
    word ^ (1u32 << bit)
}

/// The four-bit field number `index` of `word`: field 0 is bits 3:0.
pub open spec fn nibble(word: u32, index: u8) -> u32 {
    (word >> ((index * 4) as u8)) & 0xF
}

/// `word` with its four-bit field number `index` replaced by `value`. The
/// other fields stay.
pub open spec fn with_nibble(word: u32, index: u8, value: u32) -> u32 {
    (word & !(0xFu32 << ((index * 4) as u8))) | (value << ((index * 4) as u8))
}

/// Tests one bit of a register word.
pub fn test_bit(word: u32, bit: u8) -> (set: bool)
    requires
        bit < 32,
    ensures
        set == bit_is_set(word, bit),
{
    (word & (1u32 << bit)) != 0
}

/// A written bit reads back as written, and no other bit changes.
pub proof fn lemma_with_bit(word: u32, bit: u8, on: bool, other: u8)
    by (bit_vector)
    requires
        bit < 32,
        other < 32,
    ensures
        bit_is_set(with_bit(word, bit, on), bit) == on,
        other != bit ==> bit_is_set(with_bit(word, bit, on), other) == bit_is_set(word, other),
        with_bit(with_bit(word, bit, on), bit, on) == with_bit(word, bit, on),
{
}

/// A flipped bit reads back inverted, no other bit changes, and flipping
/// twice restores the word.
pub proof fn lemma_with_bit_flipped(word: u32, bit: u8, other: u8)
    by (bit_vector)
    requires
        bit < 32,
        other < 32,
    ensures
        bit_is_set(with_bit_flipped(word, bit), bit) == !bit_is_set(word, bit),
        other != bit ==> bit_is_set(with_bit_flipped(word, bit), other) == bit_is_set(
            word,
            other,
        ),
        with_bit_flipped(with_bit_flipped(word, bit), bit) == word,
{
}

/// A written four-bit field reads back as written, and no other field
/// changes.
pub proof fn lemma_with_nibble(word: u32, index: u8, value: u32, other: u8)
    by (bit_vector)
    requires
        index < 8,
        other < 8,
        value < 16,
    ensures
        nibble(with_nibble(word, index, value), index) == value,
        other != index ==> nibble(with_nibble(word, index, value), other) == nibble(word, other),
        with_nibble(with_nibble(word, index, value), index, value) == with_nibble(
            word,
            index,
            value,
        ),
{
}

} // verus!
