//! Pure bit-field codec: extraction and insertion of contiguous bit ranges
//! and of single bits within a 32-bit register word.
//!
//! Every register accessor in this crate is built on these four operations,
//! so the round-trip and isolation lemmas proved here carry over to every
//! field of every register.

use vstd::prelude::*;

verus! {

/// Mask with the low `width` bits set.
pub open spec fn low_mask(width: u32) -> u32 {
    if width == 0 {
        0u32
    } else if width > 32 {
        0xffff_ffffu32
    } else {
        0xffff_ffffu32 >> ((32 - width) as u32)
    }
}

/// The bits of `word` in the range `[lo, hi)`, shifted down to position 0.
pub open spec fn bits_of(word: u32, lo: u32, hi: u32) -> u32 {
    (word >> lo) & low_mask((hi - lo) as u32)
}

/// `word` with the bit range `[lo, hi)` replaced by `value`, all other bits kept.
pub open spec fn with_bits(word: u32, lo: u32, hi: u32, value: u32) -> u32 {
    (word & !(low_mask((hi - lo) as u32) << lo)) | (value << lo)
}

/// The single bit `i` of `word`.
pub open spec fn bit_of(word: u32, i: u32) -> bool {
    bits_of(word, i, (i + 1) as u32) == 1
}

/// `word` with bit `i` set to `b`, all other bits kept.
pub open spec fn with_bit(word: u32, i: u32, b: bool) -> u32 {
    with_bits(word, i, (i + 1) as u32, if b { 1u32 } else { 0u32 })
}

/// The masks of the field widths used by the registers of this crate.
pub proof fn lemma_low_mask_values()
    ensures
        low_mask(1) == 1u32,
        low_mask(3) == 0x7u32,
        low_mask(4) == 0xfu32,
        low_mask(8) == 0xffu32,
        low_mask(32) == 0xffff_ffffu32,
{
    assert(0xffff_ffffu32 >> 31u32 == 1u32 && 0xffff_ffffu32 >> 29u32 == 7u32
        && 0xffff_ffffu32 >> 28u32 == 0xfu32 && 0xffff_ffffu32 >> 24u32 == 0xffu32
        && 0xffff_ffffu32 >> 0u32 == 0xffff_ffffu32) by (bit_vector);
}

/// Extracts the bits of `word` in the range `[lo, hi)` as an unsigned
/// integer shifted down to position 0.
pub fn get_bits(word: u32, lo: u32, hi: u32) -> (r: u32)
    requires
        lo < hi,
        hi <= 32,
    ensures
        r == bits_of(word, lo, hi),
        r <= low_mask((hi - lo) as u32),
{
    let width: u32 = hi - lo;
    let m: u32 = 0xffff_ffffu32 >> (32 - width);
    proof {
        assert(m == low_mask((hi - lo) as u32));
        assert((word >> lo) & m <= m) by (bit_vector);
    }
    (word >> lo) & m
}

/// Replaces the bits of `word` in the range `[lo, hi)` by `value`, leaving
/// all other bits untouched. `value` must fit in the range's width.
pub fn set_bits(word: u32, lo: u32, hi: u32, value: u32) -> (r: u32)
    requires
        lo < hi,
        hi <= 32,
        value <= low_mask((hi - lo) as u32),
    ensures
        r == with_bits(word, lo, hi, value),
{
    let width: u32 = hi - lo;
    let m: u32 = 0xffff_ffffu32 >> (32 - width);
    proof {
        assert(m == low_mask((hi - lo) as u32));
    }
    (word & !(m << lo)) | (value << lo)
}

/// Reads the single bit `i` of `word`.
pub fn get_bit(word: u32, i: u32) -> (r: bool)
    requires
        i < 32,
    ensures
        r == bit_of(word, i),
{
    let b: u32 = get_bits(word, i, i + 1);
    b == 1
}

/// Sets the single bit `i` of `word` to `b`, leaving all other bits untouched.
pub fn set_bit(word: u32, i: u32, b: bool) -> (r: u32)
    requires
        i < 32,
    ensures
        r == with_bit(word, i, b),
{
    let v: u32 = if b {
        1
    } else {
        0
    };
    proof {
        lemma_low_mask_values();
    }
    set_bits(word, i, i + 1, v)
}

/// Law: decoding a field right after encoding it returns the encoded value
/// unchanged, for every word, every bit range and every value that fits the
/// range.
pub proof fn lemma_set_then_get(word: u32, lo: u32, hi: u32, value: u32)
    requires
        lo < hi,
        hi <= 32,
        value <= low_mask((hi - lo) as u32),
    ensures
        bits_of(with_bits(word, lo, hi, value), lo, hi) == value,
{
    let m: u32 = low_mask((hi - lo) as u32);
    let width: u32 = (hi - lo) as u32;
    let shift: u32 = (32 - width) as u32;
    assert(m == 0xffff_ffffu32 >> shift);
    assert(((((word & !(m << lo)) | (value << lo)) >> lo) & m) == value) by (bit_vector)
        requires
            lo < hi,
            hi <= 32u32,
            width == hi - lo,
            shift == 32 - width,
            m == 0xffff_ffffu32 >> shift,
            value <= m,
    ;
}

/// Law: encoding a field never changes the decoded value of any other,
/// disjoint field of the same word.
pub proof fn lemma_set_preserves_other(word: u32, lo: u32, hi: u32, value: u32, lo2: u32, hi2: u32)
    requires
        lo < hi,
        hi <= 32,
        lo2 < hi2,
        hi2 <= 32,
        value <= low_mask((hi - lo) as u32),
        hi2 <= lo || hi <= lo2,
    ensures
        bits_of(with_bits(word, lo, hi, value), lo2, hi2) == bits_of(word, lo2, hi2),
{
    let m: u32 = low_mask((hi - lo) as u32);
    let width: u32 = (hi - lo) as u32;
    let shift: u32 = (32 - width) as u32;
    let m2: u32 = low_mask((hi2 - lo2) as u32);
    let width2: u32 = (hi2 - lo2) as u32;
    let shift2: u32 = (32 - width2) as u32;
    assert(m == 0xffff_ffffu32 >> shift);
    assert(m2 == 0xffff_ffffu32 >> shift2);
    assert(((((word & !(m << lo)) | (value << lo)) >> lo2) & m2) == ((word >> lo2) & m2))
        by (bit_vector)
        requires
            lo < hi,
            hi <= 32u32,
            lo2 < hi2,
            hi2 <= 32u32,
            hi2 <= lo || hi <= lo2,
            width == hi - lo,
            shift == 32 - width,
            m == 0xffff_ffffu32 >> shift,
            width2 == hi2 - lo2,
            shift2 == 32 - width2,
            m2 == 0xffff_ffffu32 >> shift2,
            value <= m,
    ;
}

/// Law: a single bit reads back as written.
pub proof fn lemma_set_bit_then_get_bit(word: u32, i: u32, b: bool)
    requires
        i < 32,
    ensures
        bit_of(with_bit(word, i, b), i) == b,
{
    lemma_low_mask_values();
    lemma_set_then_get(word, i, (i + 1) as u32, if b { 1u32 } else { 0u32 });
}

/// Law: setting a single bit never changes a disjoint bit range.
pub proof fn lemma_set_bit_preserves_bits(word: u32, i: u32, b: bool, lo2: u32, hi2: u32)
    requires
        i < 32,
        lo2 < hi2,
        hi2 <= 32,
        hi2 <= i || i + 1 <= lo2,
    ensures
        bits_of(with_bit(word, i, b), lo2, hi2) == bits_of(word, lo2, hi2),
{
    lemma_low_mask_values();
    lemma_set_preserves_other(word, i, (i + 1) as u32, if b { 1u32 } else { 0u32 }, lo2, hi2);
}

/// Law: setting a bit range never changes a bit outside of it.
pub proof fn lemma_set_bits_preserves_bit(word: u32, lo: u32, hi: u32, value: u32, j: u32)
    requires
        lo < hi,
        hi <= 32,
        value <= low_mask((hi - lo) as u32),
        j < 32,
        j < lo || hi <= j,
    ensures
        bit_of(with_bits(word, lo, hi, value), j) == bit_of(word, j),
{
    lemma_set_preserves_other(word, lo, hi, value, j, (j + 1) as u32);
}

/// Law: setting one bit never changes another bit.
pub proof fn lemma_set_bit_preserves_bit(word: u32, i: u32, b: bool, j: u32)
    requires
        i < 32,
        j < 32,
        i != j,
    ensures
        bit_of(with_bit(word, i, b), j) == bit_of(word, j),
{
    lemma_low_mask_values();
    lemma_set_preserves_other(word, i, (i + 1) as u32, if b { 1u32 } else { 0u32 }, j, (j + 1) as u32);
}

} // verus!
