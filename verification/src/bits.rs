//! Bit fields of peripheral registers.
//!
//! A field is given by its unshifted `mask` and by the `offset` of its lowest bit.
use vstd::prelude::*;

verus! {

/// The contents of a field of `word`.
pub open spec fn field(word: u32, mask: u32, offset: u32) -> u32 {
    (word >> offset) & mask
}

/// The word that holds `value` in a field and zero elsewhere; bits of `value` outside the field
/// are dropped.
pub open spec fn placed(value: u32, mask: u32, offset: u32) -> u32 {
    (value & mask) << offset
}

/// `word` after the bits in `clear` were cleared and the bits in `set` were set.
pub open spec fn modified(word: u32, clear: u32, set: u32) -> u32 {
    (word & !clear) | set
}

/// Whether some bit of `mask` is set in `word`.
pub open spec fn any_set(word: u32, mask: u32) -> bool {
    word & mask != 0
}

/// `mask` if `enabled`, else no bit at all.
pub open spec fn when(enabled: bool, mask: u32) -> u32 {
    if enabled {
        mask
    } else {
        0
    }
}

/// Reads a field of `word`.
pub fn get_field(word: u32, mask: u32, offset: u32) -> (value: u32)
    requires
        offset < 32,
    ensures
        value == field(word, mask, offset),
        value <= mask,
{
    proof {
        lemma_words(word, 0, mask, offset, 0, 0, 0, 0, 0);
    }
    (word >> offset) & mask
}

/// Places `value` in a field of an otherwise empty word.
pub fn place(value: u32, mask: u32, offset: u32) -> (word: u32)
    requires
        offset < 32,
    ensures
        word == placed(value, mask, offset),
{
    (value & mask) << offset
}

/// Tells whether some bit of `mask` is set in `word`.
pub fn has(word: u32, mask: u32) -> (set: bool)
    ensures
        set == any_set(word, mask),
{
    word & mask != 0
}

/// `mask` if `enabled`, else zero.
pub fn bits_if(enabled: bool, mask: u32) -> (bits: u32)
    ensures
        bits == when(enabled, mask),
{
    if enabled {
        mask
    } else {
        0
    }
}

/// The word whose only set bit is bit `n`.
pub fn bit(n: u32) -> (mask: u32)
    requires
        n < 32,
    ensures
        mask == 1u32 << n,
        mask != 0,
{
    proof {
        lemma_words(0, 0, 0, n, 0, 0, 0, 0, 0);
    }
    1u32 << n
}

proof fn lemma_words(
    word: u32,
    value: u32,
    mask: u32,
    offset: u32,
    other_mask: u32,
    other_offset: u32,
    clear: u32,
    set: u32,
    other: u32,
)
    by (bit_vector)
    ensures
        offset < 32 ==> (word >> offset) & mask <= mask,
        offset < 32 ==> 1u32 << offset != 0,
        other & (clear | set) == 0 ==> ((word & !clear) | set) & other == word & other,
        ((word & !clear) | set) & set == set,
        ((word & !clear) | set) & (clear & !set) == 0,
        offset < 32 && (mask << offset) >> offset == mask ==> (((word & !(mask << offset)) | ((value
            & mask) << offset)) >> offset) & mask == value & mask,
        offset < 32 && other_offset < 32 && (mask << offset) & (other_mask << other_offset) == 0
            ==> (((word & !(mask << offset)) | ((value & mask) << offset)) >> other_offset)
            & other_mask == (word >> other_offset) & other_mask,
        0u32 | word == word,
        word | 0u32 == word,
        word & !0u32 == word,
        word & 0u32 == 0,
        (word & !clear) | 0u32 == word & !clear,
        modified(word, 0, 0) == word,
{
}

/// What zero does to a word, and a word without bits to a register.
pub proof fn law_zero_changes_nothing(word: u32)
    ensures
        0u32 | word == word,
        word | 0u32 == word,
        word & !0u32 == word,
        word & 0u32 == 0,
        modified(word, 0, 0) == word,
{
    lemma_words(word, 0, 0, 0, 0, 0, 0, 0, 0);
}

/// Modifying a word changes no bit outside `clear` and `set`.
pub proof fn law_modify_keeps_other_bits(word: u32, clear: u32, set: u32, other: u32)
    requires
        other & (clear | set) == 0,
    ensures
        modified(word, clear, set) & other == word & other,
{
    lemma_words(word, 0, 0, 0, 0, 0, clear, set, other);
}

/// After a modification the bits in `set` are set, and those in `clear` that are not in `set` are
/// clear.
pub proof fn law_modify_stores(word: u32, clear: u32, set: u32)
    ensures
        modified(word, clear, set) & set == set,
        modified(word, clear, set) & (clear & !set) == 0,
{
    lemma_words(word, 0, 0, 0, 0, 0, clear, set, 0);
}

/// Storing a value in a field makes the field read back as that value, cut to the field's width.
pub proof fn law_field_reads_back(word: u32, value: u32, mask: u32, offset: u32)
    requires
        offset < 32,
        (mask << offset) >> offset == mask,
    ensures
        field(modified(word, mask << offset, placed(value, mask, offset)), mask, offset) == value
            & mask,
{
    lemma_words(word, value, mask, offset, 0, 0, 0, 0, 0);
}

/// Storing a value in a field leaves every field that shares no bit with it as it was.
pub proof fn law_field_keeps_others(
    word: u32,
    value: u32,
    mask: u32,
    offset: u32,
    other_mask: u32,
    other_offset: u32,
)
    requires
        offset < 32,
        other_offset < 32,
        (mask << offset) & (other_mask << other_offset) == 0,
    ensures
        field(
            modified(word, mask << offset, placed(value, mask, offset)),
            other_mask,
            other_offset,
        ) == field(word, other_mask, other_offset),
{
    lemma_words(word, value, mask, offset, other_mask, other_offset, 0, 0, 0);
}

} // verus!
