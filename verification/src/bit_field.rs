//! Packing and unpacking of bit ranges inside a 32-bit word.
//!
//! A range is given by its lowest and highest bit position, both inclusive, bit 0 being the
//! least significant bit of the word. Nothing in this module knows what a range is used for.

use vstd::arithmetic::div_mod::lemma_small_mod;
use vstd::arithmetic::power2::{lemma2_to64, lemma_pow2_pos, pow2};
use vstd::bits::{
    lemma_u32_low_bits_mask_is_mod, lemma_u32_pow2_no_overflow, lemma_u32_shl_is_mul,
    lemma_u32_shr_is_div,
};
use vstd::prelude::*;

verus! {

/// Number of bits in a word.
pub const WORD_BITS: u32 = 32;

/// A range is well formed when it is not empty and lies inside the word.
pub open spec fn range_ok(low: u32, high: u32) -> bool {
    low <= high && high < WORD_BITS
}

/// Number of bits in the range `low..=high`.
pub open spec fn range_width(low: u32, high: u32) -> nat {
    (high - low + 1) as nat
}

/// The largest number that the range `low..=high` can hold: as many one bits as the range is
/// wide.
pub open spec fn max_value(low: u32, high: u32) -> u32 {
    u32::MAX >> ((31 - (high - low)) as u32)
}

/// Whether `value` can be stored in the range `low..=high` without losing a bit.
pub open spec fn fits(value: u32, low: u32, high: u32) -> bool {
    value <= max_value(low, high)
}

/// The number stored in bits `low..=high` of `word`.
pub open spec fn extract_bits(word: u32, low: u32, high: u32) -> u32 {
    (word >> low) & max_value(low, high)
}

/// `value` moved up so that its least significant bit stands at position `low`.
pub open spec fn place_bits(value: u32, low: u32) -> u32 {
    value << low
}

/// The word that has exactly the bits `low..=high` set.
pub open spec fn range_mask(low: u32, high: u32) -> u32 {
    max_value(low, high) << low
}

/// Two ranges that share no bit position.
pub open spec fn ranges_disjoint(low: u32, high: u32, other_low: u32, other_high: u32) -> bool {
    high < other_low || other_high < low
}

/// Computes the largest number that the range `low..=high` can hold.
pub fn field_limit(low: u32, high: u32) -> (limit: u32)
    requires
        range_ok(low, high),
    ensures
        limit == max_value(low, high),
{
    u32::MAX >> (31 - (high - low))
}

/// Reads the number stored in bits `low..=high` of `word`. Every word is accepted; the bits
/// outside the range have no influence on the result.
pub fn read_field(word: u32, low: u32, high: u32) -> (value: u32)
    requires
        range_ok(low, high),
    ensures
        value == extract_bits(word, low, high),
        fits(value, low, high),
{
    proof {
        lemma_extract_fits(word, low, high);
    }
    (word >> low) & field_limit(low, high)
}

/// Reads a range of at most eight bits as a byte.
pub fn read_field_u8(word: u32, low: u32, high: u32) -> (value: u8)
    requires
        range_ok(low, high),
        range_width(low, high) <= 8,
    ensures
        value == extract_bits(word, low, high),
{
    let value: u32 = read_field(word, low, high);
    assert(extract_bits(word, low, high) <= 0xff) by (bit_vector)
        requires
            low <= high,
            high < 32,
            high - low < 8,
    ;
    value as u8
}

/// Reads a range of at most sixteen bits as a 16-bit number.
pub fn read_field_u16(word: u32, low: u32, high: u32) -> (value: u16)
    requires
        range_ok(low, high),
        range_width(low, high) <= 16,
    ensures
        value == extract_bits(word, low, high),
{
    let value: u32 = read_field(word, low, high);
    assert(extract_bits(word, low, high) <= 0xffff) by (bit_vector)
        requires
            low <= high,
            high < 32,
            high - low < 16,
    ;
    value as u16
}

/// Stores `value` in bits `low..=high` of `word` by shifting it into place and combining it
/// with `word` by bitwise or. A value too large for the range is refused, never truncated.
pub fn write_field(word: u32, value: u32, low: u32, high: u32) -> (written: Option<u32>)
    requires
        range_ok(low, high),
    ensures
        written == (if fits(value, low, high) {
            Some(word | place_bits(value, low))
        } else {
            None
        }),
{
    if value <= field_limit(low, high) {
        Some(word | (value << low))
    } else {
        None
    }
}

/// The largest value of a range is one less than two to the power of its width.
pub proof fn lemma_max_value_is_pow2(low: u32, high: u32)
    requires
        range_ok(low, high),
    ensures
        max_value(low, high) == pow2(range_width(low, high)) - 1,
{
    let span: u32 = (high - low) as u32;
    lemma2_to64();
    if span == 31 {
        assert(u32::MAX >> 0u32 == u32::MAX) by (bit_vector);
    } else {
        let width: u32 = (span + 1) as u32;
        assert((u32::MAX >> ((31 - span) as u32)) + 1 == 1u32 << ((span + 1) as u32))
            by (bit_vector)
            requires
                span < 31,
        ;
        lemma_u32_pow2_no_overflow(width as nat);
        lemma_u32_shl_is_mul(1u32, width);
    }
}

/// A value fits a range exactly when it is below two to the power of the range's width.
pub proof fn lemma_fits_is_bound(value: u32, low: u32, high: u32)
    requires
        range_ok(low, high),
    ensures
        fits(value, low, high) <==> value < pow2(range_width(low, high)),
{
    lemma_max_value_is_pow2(low, high);
}

/// Reading a range is dividing by two to the power of its lowest position and taking the
/// remainder modulo two to the power of its width.
pub proof fn lemma_extract_is_div_mod(word: u32, low: u32, high: u32)
    requires
        range_ok(low, high),
    ensures
        extract_bits(word, low, high) == (word as nat / pow2(low as nat)) % pow2(
            range_width(low, high),
        ),
{
    let shifted: u32 = word >> low;
    let width: nat = range_width(low, high);
    lemma_u32_shr_is_div(word, low);
    lemma_max_value_is_pow2(low, high);
    lemma2_to64();
    if width == 32 {
        assert(shifted & u32::MAX == shifted) by (bit_vector);
        lemma_small_mod(shifted as nat, pow2(32));
    } else {
        lemma_u32_pow2_no_overflow(width);
        lemma_u32_low_bits_mask_is_mod(shifted, width);
    }
}

/// Placing a value that fits its range is multiplying it by two to the power of the range's
/// lowest position.
pub proof fn lemma_place_is_mul(value: u32, low: u32, high: u32)
    requires
        range_ok(low, high),
        fits(value, low, high),
    ensures
        place_bits(value, low) == value * pow2(low as nat),
{
    lemma_pow2_pos(low as nat);
    lemma_u32_shr_is_div(u32::MAX, low);
    assert(value <= u32::MAX >> low) by (bit_vector)
        requires
            low <= high,
            high < 32,
            value <= u32::MAX >> ((31 - (high - low)) as u32),
    ;
    assert(value * pow2(low as nat) <= u32::MAX) by (nonlinear_arith)
        requires
            value <= u32::MAX as nat / pow2(low as nat),
            pow2(low as nat) > 0,
    ;
    lemma_u32_shl_is_mul(value, low);
}

/// What is read from a range always fits that range.
pub proof fn lemma_extract_fits(word: u32, low: u32, high: u32)
    by (bit_vector)
    requires
        range_ok(low, high),
    ensures
        fits(extract_bits(word, low, high), low, high),
{
}

/// A value that fits, written into a range that was clear, is read back unchanged.
pub proof fn lemma_write_then_read(word: u32, value: u32, low: u32, high: u32)
    by (bit_vector)
    requires
        range_ok(low, high),
        fits(value, low, high),
        extract_bits(word, low, high) == 0,
    ensures
        extract_bits(word | place_bits(value, low), low, high) == value,
{
}

/// Writing a value that fits one range leaves every disjoint range as it was.
pub proof fn lemma_write_elsewhere(
    word: u32,
    value: u32,
    low: u32,
    high: u32,
    other_low: u32,
    other_high: u32,
)
    by (bit_vector)
    requires
        range_ok(low, high),
        range_ok(other_low, other_high),
        ranges_disjoint(low, high, other_low, other_high),
        fits(value, other_low, other_high),
    ensures
        extract_bits(word | place_bits(value, other_low), low, high) == extract_bits(
            word,
            low,
            high,
        ),
{
}

/// Writing back what was read from a range rebuilds exactly the bits of that range.
pub proof fn lemma_read_then_write(word: u32, low: u32, high: u32)
    by (bit_vector)
    requires
        range_ok(low, high),
    ensures
        place_bits(extract_bits(word, low, high), low) == word & range_mask(low, high),
{
}

} // verus!
