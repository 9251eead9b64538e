use jihaz::bits::const_stash_in_bits::{
    add_to_right_given_bits, add_to_right_given_value, read_given_bits,
    read_given_bitwise_max_value, take_from_right_given_bits, take_from_right_given_value,
};
use jihaz::bits::stash::StashInBits;
use jihaz::bits::{
    max_bitwise_value, max_bitwise_value_for_bits, max_bitwise_value_for_bits_2, max_u16,
    max_u32, max_u64, max_u8, number_of_bits, MAX_U12, MAX_U31, MAX_U40, MAX_U64,
};
use jihaz::combine_bits::{combine_as, needed_integer_size, retrieve_from};

#[test]
fn largest_values_of_bit_counts() {
    assert_eq!(max_u8(3), 7);
    assert_eq!(max_u8(8), 255);
    assert_eq!(max_u16(12), MAX_U12);
    assert_eq!(max_u32(31), MAX_U31);
    assert_eq!(max_u64(40), MAX_U40);
    assert_eq!(max_u64(64), MAX_U64);
    assert_eq!(max_bitwise_value_for_bits(1), 1);
    assert_eq!(max_bitwise_value_for_bits(12), 4095);
    assert_eq!(max_bitwise_value_for_bits(64), u64::MAX);
}

#[test]
fn largest_value_of_the_bits_a_value_needs() {
    assert_eq!(max_bitwise_value(0), 1);
    assert_eq!(max_bitwise_value(1), 1);
    assert_eq!(max_bitwise_value(12), 15);
    assert_eq!(max_bitwise_value(16), 31);
    assert_eq!(max_bitwise_value(u64::MAX), u64::MAX);
}

#[test]
fn largest_values_by_nested_comparisons() {
    assert_eq!(max_bitwise_value_for_bits_2(0), 0);
    assert_eq!(max_bitwise_value_for_bits_2(5), 31);
    assert_eq!(max_bitwise_value_for_bits_2(33), 0x1_ffff_ffff);
    assert_eq!(max_bitwise_value_for_bits_2(64), u64::MAX);
    assert_eq!(max_bitwise_value_for_bits_2(100), u64::MAX);
}

#[test]
fn bits_needed_by_values() {
    assert_eq!(number_of_bits(0), 1);
    assert_eq!(number_of_bits(1), 1);
    assert_eq!(number_of_bits(2), 2);
    assert_eq!(number_of_bits(255), 8);
    assert_eq!(number_of_bits(256), 9);
    assert_eq!(number_of_bits(3000), 12);
    assert_eq!(number_of_bits(u64::MAX), 64);
}

#[test]
fn add_then_take_gives_back() {
    let stashed = add_to_right_given_value(2000, 27, 31);
    assert_eq!(stashed, (2000 << 5) | 27);
    assert_eq!(take_from_right_given_value(stashed, 31), (2000, 27));
    let stashed = add_to_right_given_bits(5, 3, 4);
    assert_eq!(stashed, 83);
    assert_eq!(take_from_right_given_bits(stashed, 4), (5, 3));
}

#[test]
fn reading_stored_bits() {
    let stashed: u64 = (2000 << 10) | (300 << 1) | 1;
    assert_eq!(read_given_bits(stashed, 1, 0), 1);
    assert_eq!(read_given_bits(stashed, 9, 1), 300);
    assert_eq!(read_given_bits(stashed, 8, 1), 300 & 255);
    assert_eq!(read_given_bits(stashed, 11, 10), 2000);
    assert_eq!(read_given_bitwise_max_value(stashed, 0x1ff, 1), 300);
    assert_eq!(stashed.read_given_bits(11, 10), 2000);
    assert_eq!(stashed.read_given_bitwise_max_value(0x3ff, 0), 601);
}

#[test]
fn stash_in_place() {
    let mut value: u64 = 6;
    value.add_to_right_given_bits(1, 2);
    assert_eq!(value, 25);
    assert_eq!(value.take_from_right_given_bits(2), 1);
    assert_eq!(value, 6);
}

#[test]
fn combining_two_integers() {
    assert_eq!(needed_integer_size(12, 3000), 4 + 12);
    let combined = combine_as(9, 12, 2021, 3000);
    assert_eq!(combined, (2021 << 4) | 9);
    assert_eq!(retrieve_from(combined, 12, 3000), (9, 2021));
    // a high value larger than its largest value loses the bits beyond it
    let combined = combine_as(1, 1, 9, 3);
    assert_eq!(retrieve_from(combined, 1, 3), (1, 1));
}
