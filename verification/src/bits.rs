//! Single-bit operations on 32-bit register words.
//!
//! Clock gating and peripheral control registers are manipulated one bit at a
//! time. This module gives those operations names that the rest of the crate
//! states its contracts over, and proves the bit-level laws the lifecycle
//! transitions rely on.

use vstd::prelude::*;

verus! {

/// The one-bit mask selecting `bit` in a 32-bit word.
pub open spec fn mask(bit: u32) -> u32 {
    1u32 << bit
}

/// Whether `bit` is set in `word`.
pub open spec fn bit_set(word: u32, bit: u32) -> bool {
    word & mask(bit) != 0u32
}

/// `word` with `bit` set and every other bit as it was.
pub open spec fn with_bit_set(word: u32, bit: u32) -> u32 {
    word | mask(bit)
}

/// `word` with `bit` cleared and every other bit as it was.
pub open spec fn with_bit_cleared(word: u32, bit: u32) -> u32 {
    word & !mask(bit)
}

/// Set one bit of a register word.
pub fn set_bit(word: u32, bit: u32) -> (r: u32)
    requires
        bit < 32,
    ensures
        r == with_bit_set(word, bit),
        bit_set(r, bit),
{
    proof {
        lemma_set_bit_sets(word, bit);
    }
    word | (1u32 << bit)
}

/// Clear one bit of a register word.
pub fn clear_bit(word: u32, bit: u32) -> (r: u32)
    requires
        bit < 32,
    ensures
        r == with_bit_cleared(word, bit),
        !bit_set(r, bit),
{
    proof {
        lemma_clear_bit_clears(word, bit);
    }
    word & !(1u32 << bit)
}

/// Read one bit of a register word.
pub fn get_bit(word: u32, bit: u32) -> (r: bool)
    requires
        bit < 32,
    ensures
        r == bit_set(word, bit),
{
    word & (1u32 << bit) != 0
}

/// After setting a bit, that bit reads as set.
pub proof fn lemma_set_bit_sets(word: u32, bit: u32)
    requires
        bit < 32,
    ensures
        bit_set(with_bit_set(word, bit), bit),
{
    assert((word | (1u32 << bit)) & (1u32 << bit) != 0u32) by (bit_vector)
        requires
            bit < 32,
    ;
}

/// After clearing a bit, that bit reads as clear.
pub proof fn lemma_clear_bit_clears(word: u32, bit: u32)
    requires
        bit < 32,
    ensures
        !bit_set(with_bit_cleared(word, bit), bit),
{
    assert((word & !(1u32 << bit)) & (1u32 << bit) == 0u32) by (bit_vector)
        requires
            bit < 32,
    ;
}

/// Setting one bit leaves every other bit of the word unchanged.
pub proof fn lemma_set_bit_preserves_others(word: u32, bit: u32, other: u32)
    requires
        bit < 32,
        other < 32,
        other != bit,
    ensures
        bit_set(with_bit_set(word, bit), other) == bit_set(word, other),
{
    assert(((word | (1u32 << bit)) & (1u32 << other) != 0u32) == (word & (1u32 << other)
        != 0u32)) by (bit_vector)
        requires
            bit < 32,
            other < 32,
            other != bit,
    ;
}

/// Clearing one bit leaves every other bit of the word unchanged.
pub proof fn lemma_clear_bit_preserves_others(word: u32, bit: u32, other: u32)
    requires
        bit < 32,
        other < 32,
        other != bit,
    ensures
        bit_set(with_bit_cleared(word, bit), other) == bit_set(word, other),
{
    assert(((word & !(1u32 << bit)) & (1u32 << other) != 0u32) == (word & (1u32 << other)
        != 0u32)) by (bit_vector)
        requires
            bit < 32,
            other < 32,
            other != bit,
    ;
}

/// Setting a bit that was clear and then clearing it again restores the whole
/// word to its original value.
pub proof fn lemma_set_then_clear_restores(word: u32, bit: u32)
    requires
        bit < 32,
        !bit_set(word, bit),
    ensures
        with_bit_cleared(with_bit_set(word, bit), bit) == word,
{
    assert((word | (1u32 << bit)) & !(1u32 << bit) == word) by (bit_vector)
        requires
            bit < 32,
            word & (1u32 << bit) == 0u32,
    ;
}

} // verus!
