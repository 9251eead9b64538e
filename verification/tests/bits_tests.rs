use jihaz::bits::stash::StashInBits;
use jihaz::bits::{
    max_bitwise_value, max_bitwise_value_for_bits, number_of_bits, MAX_U10, MAX_U11, MAX_U13,
    MAX_U7,
};

const MAX_VALUES: [u64; 4] = [MAX_U10 as u64, MAX_U7 as u64, MAX_U11 as u64, MAX_U13 as u64];
const VALUES: [u64; 4] = [843, 120, 2000, 7777];

fn steps_add(mut left: u64, right: u64, right_max: u64) -> u64 {
    // shift by the number of bits needed to save the new value
    left = left << number_of_bits(right_max);
    // add the new value to the right
    left = left | right;
    left
}

fn steps_take(mut left: u64, right_max: u64) -> (u64, u64) {
    let right_bitwise_max_value = max_bitwise_value(right_max);
    let right = left & right_bitwise_max_value;
    let copy_of_self = left;
    // remove the right bits from self
    left = copy_of_self >> number_of_bits(right_max);
    (left, right)
}

#[test]
fn bits() {
    for bits in 1..=64 {
        assert_eq!(bits, number_of_bits(max_bitwise_value_for_bits(bits)));
    }
}

#[test]
fn bits_steps() {
    let left = steps_add(2000, 3, 12);
    let (left, res) = steps_take(left, 12);
    assert!(res == 3 as u64);
    assert!(left == 2000 as u64)
}

#[test]
fn bits_steps2() {
    let left = steps_add(2000, 3, 12);
    let left = steps_add(left, 27, 31);
    let (left, res) = steps_take(left, 31);
    assert!(res == 27);
    let (left, res) = steps_take(left, 12);
    assert!(res == 3);
    assert!(left == 2000)
}

#[test]
fn bits_bits() {
    let mut current_value = VALUES[0];
    current_value.add_to_right_given_value(VALUES[1], MAX_VALUES[1]);
    let res = current_value.take_from_right_given_value(MAX_VALUES[1]);
    assert!(res == VALUES[1]);
    assert!(current_value == VALUES[0]);
}

#[test]
fn bits2() {
    let mut current_value = VALUES[0];
    current_value.add_to_right_given_value(VALUES[1], MAX_VALUES[1]);
    current_value.add_to_right_given_value(VALUES[2], MAX_VALUES[2]);
    let res = current_value.take_from_right_given_value(MAX_VALUES[2]);
    assert!(res == VALUES[2]);
    let res = current_value.take_from_right_given_value(MAX_VALUES[1]);
    assert!(res == VALUES[1]);
    assert!(current_value == VALUES[0]);
}

#[test]
fn bits3() {
    let mut current_value = VALUES[0];
    current_value.add_to_right_given_value(VALUES[1], MAX_VALUES[1]);
    current_value.add_to_right_given_value(VALUES[2], MAX_VALUES[2]);
    current_value.add_to_right_given_value(VALUES[3], MAX_VALUES[3]);
    let res = current_value.take_from_right_given_value(MAX_VALUES[3]);
    assert!(res == VALUES[3]);
    let res = current_value.take_from_right_given_value(MAX_VALUES[2]);
    assert!(res == VALUES[2]);
    let res = current_value.take_from_right_given_value(MAX_VALUES[1]);
    assert!(res == VALUES[1]);
    assert!(current_value == VALUES[0]);
}
