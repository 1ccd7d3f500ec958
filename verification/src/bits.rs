//! Bit-level facts about the 256-bit event-type masks.

use vstd::prelude::*;

verus! {

/// Whether bit `b` of `w` is set.
pub open spec fn bit64(w: u64, b: u64) -> bool {
    (w >> b) & 1u64 == 1u64
}

/// Whether bit `b` of `w` is set.
pub open spec fn bit32(w: u32, b: u32) -> bool {
    (w >> b) & 1u32 == 1u32
}

/// Whether event-type bit `t` is set in a mask of four 64-bit words.
pub open spec fn mask_bit(words: [u64; 4], t: nat) -> bool {
    t < 256 && bit64(words[(t / 64) as int], (t % 64) as u64)
}

/// Whether event-type bit `t` is set in a mask of eight 32-bit words.
pub open spec fn mask32_bit(words: [u32; 8], t: nat) -> bool {
    t < 256 && bit32(words[(t / 32) as int], (t % 32) as u32)
}

/// Setting bit `b` sets it and leaves the other bits alone.
pub proof fn lemma_set_bit(w: u64, b: u64, c: u64)
    requires
        b < 64,
        c < 64,
    ensures
        bit64(w | (1u64 << b), c) == (c == b || bit64(w, c)),
{
    assert(((w | (1u64 << b)) >> c) & 1u64 == 1u64 <==> (c == b || (w >> c) & 1u64 == 1u64)) by (bit_vector)
        requires
            b < 64,
            c < 64,
    ;
}

/// Clearing bit `b` clears it and leaves the other bits alone.
pub proof fn lemma_clear_bit(w: u64, b: u64, c: u64)
    requires
        b < 64,
        c < 64,
    ensures
        bit64(w & !(1u64 << b), c) == (c != b && bit64(w, c)),
{
    assert(((w & !(1u64 << b)) >> c) & 1u64 == 1u64 <==> (c != b && (w >> c) & 1u64 == 1u64)) by (bit_vector)
        requires
            b < 64,
            c < 64,
    ;
}

/// Every bit of `u64::MAX` is set and no bit of zero is.
pub proof fn lemma_full_and_empty(c: u64)
    requires
        c < 64,
    ensures
        bit64(u64::MAX, c),
        !bit64(0u64, c),
{
    assert((u64::MAX >> c) & 1u64 == 1u64) by (bit_vector)
        requires
            c < 64,
    ;
    assert(!((0u64 >> c) & 1u64 == 1u64)) by (bit_vector);
}

/// Every bit of `u32::MAX` is set.
pub proof fn lemma_full32(c: u32)
    requires
        c < 32,
    ensures
        bit32(u32::MAX, c),
{
    assert((u32::MAX >> c) & 1u32 == 1u32) by (bit_vector)
        requires
            c < 32,
    ;
}

/// The low and high halves of a 64-bit word hold its bits 0..32 and 32..64.
pub proof fn lemma_split_word(w: u64, c: u32)
    requires
        c < 32,
    ensures
        bit32(w as u32, c) == bit64(w, c as u64),
        bit32((w >> 32u64) as u32, c) == bit64(w, (c + 32) as u64),
{
    assert((((w as u32) >> c) & 1u32 == 1u32) <==> ((w >> (c as u64)) & 1u64 == 1u64)) by (bit_vector)
        requires
            c < 32,
    ;
    assert(((((w >> 32u64) as u32) >> c) & 1u32 == 1u32) <==> ((w >> ((c + 32) as u64)) & 1u64 == 1u64)) by (bit_vector)
        requires
            c < 32,
    ;
}

} // verus!
