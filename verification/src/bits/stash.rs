//! Bit manipulation on a `u64` in place: values are added to, taken from and read from its
//! rightmost bits.
use vstd::prelude::*;
use vstd::arithmetic::power2::pow2;
use vstd::bits::low_bits_mask;
use crate::bits::bits_needed;
use super::const_stash_in_bits::{self, spec_add_to_right};

verus! {

/// Bit manipulation functions
pub trait StashInBits {
    /// Adds to right, when we know the maximum value.
    fn add_to_right_given_value(&mut self, value: u64, right_max_value: u64)
        requires
            bits_needed(right_max_value) < 64,
    ;

    /// Adds to right, when we know the maximum bits.
    fn add_to_right_given_bits(&mut self, value: u64, bits_of_right_max_value: usize)
        requires
            bits_of_right_max_value < 64,
    ;

    /// Remove from right, when we know the maximum value
    fn take_from_right_given_value(&mut self, right_max_value: u64) -> u64
        requires
            bits_needed(right_max_value) < 64,
    ;

    /// Remove from right, when we know the maximum bits
    fn take_from_right_given_bits(&mut self, bits_of_right_max_value: usize) -> u64
        requires
            0 < bits_of_right_max_value < 64,
    ;

    /// Read a certain value stored in specific bits.
    ///
    /// The shift can be zero when we're reading the right most bits in self.
    fn read_given_bits(&self, bits_of_max_value: usize, shift_from_right: usize) -> u64
        requires
            0 < bits_of_max_value <= 64,
            shift_from_right < 64,
    ;

    /// Read a certain value stored in specific bits; given the maximum bitwise value of these bits.
    ///
    /// The shift can be zero when we're reading the right most bits in self.
    fn read_given_bitwise_max_value(&self, bitwise_max_value: u64, shift_from_right: usize) -> u64
        requires
            shift_from_right < 64,
    ;
}

impl StashInBits for u64 {
    fn add_to_right_given_value(&mut self, value: u64, right_max_value: u64)
        ensures
            *final(self) == spec_add_to_right(*old(self), value, bits_needed(right_max_value)),
    {
        *self = const_stash_in_bits::add_to_right_given_value(*self, value, right_max_value);
    }

    fn add_to_right_given_bits(&mut self, value: u64, bits_of_right_max_value: usize)
        ensures
            *final(self) == spec_add_to_right(*old(self), value, bits_of_right_max_value),
    {
        *self = const_stash_in_bits::add_to_right_given_bits(*self, value, bits_of_right_max_value);
    }

    fn take_from_right_given_value(&mut self, right_max_value: u64) -> (r: u64)
        ensures
            *final(self) == *old(self) as nat / pow2(bits_needed(right_max_value) as nat),
            r == *old(self) as nat % pow2(bits_needed(right_max_value) as nat),
    {
        let (this, res) = const_stash_in_bits::take_from_right_given_value(*self, right_max_value);
        *self = this;
        res
    }

    fn take_from_right_given_bits(&mut self, bits_of_right_max_value: usize) -> (r: u64)
        ensures
            *final(self) == *old(self) as nat / pow2(bits_of_right_max_value as nat),
            r == *old(self) as nat % pow2(bits_of_right_max_value as nat),
    {
        let (this, res) = const_stash_in_bits::take_from_right_given_bits(*self, bits_of_right_max_value);
        *self = this;
        res
    }

    fn read_given_bits(&self, bits_of_max_value: usize, shift_from_right: usize) -> (r: u64)
        ensures
            r == (*self >> (shift_from_right as u64)) & (low_bits_mask(bits_of_max_value as nat) as u64),
    {
        const_stash_in_bits::read_given_bits(*self, bits_of_max_value, shift_from_right)
    }

    fn read_given_bitwise_max_value(&self, bitwise_max_value: u64, shift_from_right: usize) -> (r: u64)
        ensures
            r == (*self >> (shift_from_right as u64)) & bitwise_max_value,
    {
        const_stash_in_bits::read_given_bitwise_max_value(*self, bitwise_max_value, shift_from_right)
    }
}

} // verus!
