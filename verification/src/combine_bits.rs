//! Two bounded integers combined into one, in as few bits as their largest values need.
use vstd::prelude::*;
use vstd::arithmetic::power2::{pow2, lemma_pow2_pos};
use vstd::bits::low_bits_mask;
use crate::bits::{number_of_bits, bits_needed, max_bitwise_value_for_bits, lemma_bits_needed_holds};
use crate::bits::const_stash_in_bits::law_add_then_take;

verus! {

/// Returns the size or number of bits needed to hold maximum values possible for low and high
pub fn needed_integer_size(low_max: u16, high_max: u16) -> (r: usize)
    ensures
        r == bits_needed(low_max as u64) + bits_needed(high_max as u64),
{
    let low_bits = number_of_bits(low_max as u64);
    let high_bits = number_of_bits(high_max as u64);
    proof {
        lemma_bits_needed_holds(low_max as u64);
        lemma_bits_needed_holds(high_max as u64);
    }
    low_bits + high_bits
}

/// `high` moved left by the bits that the largest low value needs, with `low` in the bits
/// that this frees.
pub open spec fn spec_combine_as(low: u64, low_max: u64, high: u64) -> u64 {
    (high << (bits_needed(low_max) as u64)) | low
}

/// Combines two integers into one, shift as little bits as possible: the high one goes above
/// the bits that the largest low value needs.
pub fn combine_as(low: u64, low_max: u64, high: u64, high_max: u64) -> (r: u64)
    requires
        bits_needed(low_max) < 64,
    ensures
        r == spec_combine_as(low, low_max, high),
{
    let low_bits = number_of_bits(low_max);
    let mut high = high;
    high = high << (low_bits as u64);
    high | low
}

/// Retrieve the two integers from the combined one: the low one from the bits that the
/// largest low value needs, the high one from the bits above them that the largest high value
/// needs.
pub fn retrieve_from(combined: u64, low_max: u64, high_max: u64) -> (r: (u64, u64))
    requires
        bits_needed(low_max) < 64,
    ensures
        r.0 == combined & (low_bits_mask(bits_needed(low_max) as nat) as u64),
        r.1 == (combined >> (bits_needed(low_max) as u64)) & (low_bits_mask(bits_needed(high_max) as nat) as u64),
{
    let low_bits = number_of_bits(low_max);
    let high_bits = number_of_bits(high_max);
    proof {
        lemma_bits_needed_holds(low_max);
        lemma_bits_needed_holds(high_max);
    }
    (combined & max_bitwise_value_for_bits(low_bits), (combined >> (low_bits as u64)) & max_bitwise_value_for_bits(high_bits))
}

/// Combining two integers and retrieving them gives them back: when each is at most its
/// largest value, and the bits that the two largest values need fit in a `u64`.
pub proof fn law_combine_then_retrieve(low: u64, low_max: u64, high: u64, high_max: u64)
    requires
        low <= low_max,
        high <= high_max,
        bits_needed(low_max) + bits_needed(high_max) <= 64,
    ensures
        ({
            let combined = spec_combine_as(low, low_max, high);
            let lb = bits_needed(low_max);
            let hb = bits_needed(high_max);
            &&& combined & (low_bits_mask(lb as nat) as u64) == low
            &&& (combined >> (lb as u64)) & (low_bits_mask(hb as nat) as u64) == high
        }),
{
    let lb = bits_needed(low_max);
    let hb = bits_needed(high_max);
    lemma_bits_needed_holds(low_max);
    lemma_bits_needed_holds(high_max);
    lemma_pow2_pos(lb as nat);
    lemma_pow2_pos(hb as nat);
    assert(low < pow2(lb as nat));
    assert(high < pow2(hb as nat));
    if hb < 64 - lb {
        vstd::arithmetic::power2::lemma_pow2_strictly_increases(hb as nat, (64 - lb) as nat);
    }
    law_add_then_take(high, low, lb);
    let combined = spec_combine_as(low, low_max, high);
    vstd::bits::lemma_u64_low_bits_mask_is_mod(combined, lb as nat);
    vstd::bits::lemma_u64_shr_is_div(combined, lb as u64);
    vstd::bits::lemma_u64_low_bits_mask_is_mod(high, hb as nat);
    vstd::bits::lemma_u64_pow2_no_overflow(lb as nat);
    vstd::bits::lemma_u64_pow2_no_overflow(hb as nat);
    vstd::arithmetic::div_mod::lemma_small_mod(high as nat, pow2(hb as nat));
}

} // verus!
