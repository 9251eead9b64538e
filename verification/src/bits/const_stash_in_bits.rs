//! Bit stashing on plain `u64` values: values are added to, taken from and read from the
//! rightmost bits of a `u64`.
use vstd::prelude::*;
use vstd::arithmetic::power2::{pow2, lemma2_to64, lemma2_to64_rest, lemma_pow2_pos, lemma_pow2_adds};
use vstd::bits::{low_bits_mask, lemma_u64_shr_is_div, lemma_u64_low_bits_mask_is_mod, lemma_u64_shl_is_mul};
use crate::bits::{max_bitwise_value_for_bits, number_of_bits, bits_needed, is_bits_needed};

verus! {

/// `this` with its bits moved left by `bits`, and `value` in the bits that this frees.
pub open spec fn spec_add_to_right(this: u64, value: u64, bits: usize) -> u64 {
    (this << (bits as u64)) | value
}

/// Adds `value` to the right of `this`, making room for the largest value `right_max_value`.
pub fn add_to_right_given_value(this: u64, value: u64, right_max_value: u64) -> (r: u64)
    requires
        bits_needed(right_max_value) < 64,
    ensures
        r == spec_add_to_right(this, value, bits_needed(right_max_value)),
{
    let bits_of_right_max_value = number_of_bits(right_max_value);
    add_to_right_given_bits(this, value, bits_of_right_max_value)
}

/// Adds `value` to the right of `this`, making room for `bits_of_right_max_value` bits.
pub fn add_to_right_given_bits(this: u64, value: u64, bits_of_right_max_value: usize) -> (r: u64)
    requires
        bits_of_right_max_value < 64,
    ensures
        r == spec_add_to_right(this, value, bits_of_right_max_value),
{
    let mut this = this;
    // For example, 1101 with 10
    // shift by the number of bits needed to save the new value
    // 1101 => 110100
    this = this << (bits_of_right_max_value as u64);
    // add the new value to the right
    // 110100 | 10 => 110110
    this = this | value;
    this
}

/// Takes the value in the rightmost bits of `this` that the largest value `right_max_value`
/// needs: returns `this` without them, and the value.
pub fn take_from_right_given_value(this: u64, right_max_value: u64) -> (r: (u64, u64))
    requires
        bits_needed(right_max_value) < 64,
    ensures
        r.0 == this as nat / pow2(bits_needed(right_max_value) as nat),
        r.1 == this as nat % pow2(bits_needed(right_max_value) as nat),
{
    let bits_of_right_max_value = number_of_bits(right_max_value);
    take_from_right_given_bits(this, bits_of_right_max_value)
}

/// Takes the value in the rightmost `bits_of_right_max_value` bits of `this`: returns `this`
/// without them, and the value.
pub fn take_from_right_given_bits(this: u64, bits_of_right_max_value: usize) -> (r: (u64, u64))
    requires
        0 < bits_of_right_max_value < 64,
    ensures
        r.0 == this as nat / pow2(bits_of_right_max_value as nat),
        r.1 == this as nat % pow2(bits_of_right_max_value as nat),
{
    // For example, 10 from 110110
    let mut left = this;
    // right_bitwise_max_value => 11
    let right_bitwise_max_value = max_bitwise_value_for_bits(bits_of_right_max_value);
    // left & right_bitwise_max_value => 10 (right value)
    let right = left & right_bitwise_max_value;
    let copy_of_self = left;
    // remove the right bits from self
    left = copy_of_self >> (bits_of_right_max_value as u64);
    proof {
        lemma_u64_low_bits_mask_is_mod(this, bits_of_right_max_value as nat);
        lemma_u64_shr_is_div(this, bits_of_right_max_value as u64);
        lemma_pow2_pos(bits_of_right_max_value as nat);
        vstd::bits::lemma_u64_pow2_no_overflow(bits_of_right_max_value as nat);
    }
    (left, right)
}

/// Reads the value stored in the `bits_of_max_value` bits of `this` that start
/// `shift_from_right` bits from the right.
pub fn read_given_bits(this: u64, bits_of_max_value: usize, shift_from_right: usize) -> (r: u64)
    requires
        0 < bits_of_max_value <= 64,
        shift_from_right < 64,
    ensures
        r == (this >> (shift_from_right as u64)) & (low_bits_mask(bits_of_max_value as nat) as u64),
{
    let bitwise_max_value = max_bitwise_value_for_bits(bits_of_max_value);
    read_given_bitwise_max_value(this, bitwise_max_value, shift_from_right)
}

/// Reads the value stored in the bits of `this` that start `shift_from_right` bits from the
/// right and that `bitwise_max_value` masks.
pub fn read_given_bitwise_max_value(this: u64, bitwise_max_value: u64, shift_from_right: usize) -> (r: u64)
    requires
        shift_from_right < 64,
    ensures
        r == (this >> (shift_from_right as u64)) & bitwise_max_value,
{
    if shift_from_right == 0 {
        proof {
            assert(this >> 0u64 == this) by (bit_vector);
        }
        this & bitwise_max_value
    } else {
        (this >> (shift_from_right as u64)) & bitwise_max_value
    }
}

/// In bit-vector terms: a value below `b` bits and a value moved left by `b` bits share no
/// bit, so their bitwise or is their sum.
proof fn lemma_stash_bits(shifted: u64, value: u64, b: u64)
    by (bit_vector)
    requires
        0 < b < 64,
        value < (1u64 << b),
        (shifted >> b) << b == shifted,
    ensures
        shifted | value == shifted + value,
{
}

/// Adding a value to the right of a `u64` and taking it back gives back both: when the value
/// fits in the bits added, and the `u64` fits in the bits that remain, taking those bits from
/// the result returns the `u64` and the value.
pub proof fn law_add_then_take(this: u64, value: u64, bits: usize)
    requires
        0 < bits < 64,
        value < pow2(bits as nat),
        this < pow2((64 - bits) as nat),
    ensures
        spec_add_to_right(this, value, bits) as nat / pow2(bits as nat) == this,
        spec_add_to_right(this, value, bits) as nat % pow2(bits as nat) == value,
{
    let b = bits as u64;
    let p = pow2(bits as nat);
    lemma_pow2_adds((64 - bits) as nat, bits as nat);
    lemma2_to64();
    lemma_pow2_pos(bits as nat);
    lemma_pow2_pos((64 - bits) as nat);
    vstd::bits::lemma_u64_pow2_no_overflow(bits as nat);
    assert(this * p < pow2(64)) by (nonlinear_arith)
        requires
            this < pow2((64 - bits) as nat),
            pow2((64 - bits) as nat) * p == pow2(64),
            p > 0,
    ;
    lemma_u64_shl_is_mul(this, b);
    lemma_u64_shl_is_mul(1, b);
    let shifted = this << b;
    lemma_u64_shr_is_div(shifted, b);
    assert(shifted as nat / p == this) by {
        vstd::arithmetic::div_mod::lemma_div_by_multiple(this as int, p as int);
    }
    assert((shifted >> b) << b == shifted);
    lemma_stash_bits(shifted, value, b);
    let added = spec_add_to_right(this, value, bits);
    assert(added == this * p + value);
    vstd::arithmetic::div_mod::lemma_fundamental_div_mod_converse_div(added as int, p as int, this as int, value as int);
    vstd::arithmetic::div_mod::lemma_fundamental_div_mod_converse_mod(added as int, p as int, this as int, value as int);
}

/// Adding a value to the right of a `u64`, with room for the largest value `right_max_value`,
/// and taking it back with the same largest value gives back both: when the value is at most
/// that largest value, and the `u64` fits in the bits that remain.
pub proof fn law_add_then_take_given_value(this: u64, value: u64, right_max_value: u64)
    requires
        bits_needed(right_max_value) < 64,
        value <= right_max_value,
        this < pow2((64 - bits_needed(right_max_value)) as nat),
    ensures
        spec_add_to_right(this, value, bits_needed(right_max_value)) as nat / pow2(bits_needed(right_max_value) as nat) == this,
        spec_add_to_right(this, value, bits_needed(right_max_value)) as nat % pow2(bits_needed(right_max_value) as nat) == value,
{
    let n = bits_needed(right_max_value);
    crate::bits::lemma_bits_needed_holds(right_max_value);
    lemma_pow2_pos(n as nat);
    law_add_then_take(this, value, n);
}

} // verus!
