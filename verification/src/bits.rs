//! The maximum values that can be stored in a specified number of bits, and the number of
//! bits that a value needs.
use vstd::prelude::*;
use vstd::arithmetic::power2::{pow2, lemma2_to64, lemma2_to64_rest, lemma_pow2_adds, lemma_pow2_pos, lemma_pow2_strictly_increases};
use vstd::bits::{low_bits_mask, lemma_u8_shr_is_div, lemma_u16_shr_is_div, lemma_u32_shr_is_div, lemma_u64_shr_is_div};
use vstd::arithmetic::div_mod::lemma_fundamental_div_mod_converse_div;

pub mod const_stash_in_bits;
pub mod stash;

verus! {

pub const MAX_U1: u8 = 0x1u8;
pub const MAX_U2: u8 = 0x3u8;
pub const MAX_U3: u8 = 0x7u8;
pub const MAX_U4: u8 = 0xfu8;
pub const MAX_U5: u8 = 0x1fu8;
pub const MAX_U6: u8 = 0x3fu8;
pub const MAX_U7: u8 = 0x7fu8;
pub const MAX_U8: u8 = 0xffu8;
pub const MAX_U9: u16 = 0x1ffu16;
pub const MAX_U10: u16 = 0x3ffu16;
pub const MAX_U11: u16 = 0x7ffu16;
pub const MAX_U12: u16 = 0xfffu16;
pub const MAX_U13: u16 = 0x1fffu16;
pub const MAX_U14: u16 = 0x3fffu16;
pub const MAX_U15: u16 = 0x7fffu16;
pub const MAX_U16: u16 = 0xffffu16;
pub const MAX_U17: u32 = 0x1ffffu32;
pub const MAX_U18: u32 = 0x3ffffu32;
pub const MAX_U19: u32 = 0x7ffffu32;
pub const MAX_U20: u32 = 0xfffffu32;
pub const MAX_U21: u32 = 0x1fffffu32;
pub const MAX_U22: u32 = 0x3fffffu32;
pub const MAX_U23: u32 = 0x7fffffu32;
pub const MAX_U24: u32 = 0xffffffu32;
pub const MAX_U25: u32 = 0x1ffffffu32;
pub const MAX_U26: u32 = 0x3ffffffu32;
pub const MAX_U27: u32 = 0x7ffffffu32;
pub const MAX_U28: u32 = 0xfffffffu32;
pub const MAX_U29: u32 = 0x1fffffffu32;
pub const MAX_U30: u32 = 0x3fffffffu32;
pub const MAX_U31: u32 = 0x7fffffffu32;
pub const MAX_U32: u32 = 0xffffffffu32;
pub const MAX_U33: u64 = 0x1ffffffffu64;
pub const MAX_U34: u64 = 0x3ffffffffu64;
pub const MAX_U35: u64 = 0x7ffffffffu64;
pub const MAX_U36: u64 = 0xfffffffffu64;
pub const MAX_U37: u64 = 0x1fffffffffu64;
pub const MAX_U38: u64 = 0x3fffffffffu64;
pub const MAX_U39: u64 = 0x7fffffffffu64;
pub const MAX_U40: u64 = 0xffffffffffu64;
pub const MAX_U41: u64 = 0x1ffffffffffu64;
pub const MAX_U42: u64 = 0x3ffffffffffu64;
pub const MAX_U43: u64 = 0x7ffffffffffu64;
pub const MAX_U44: u64 = 0xfffffffffffu64;
pub const MAX_U45: u64 = 0x1fffffffffffu64;
pub const MAX_U46: u64 = 0x3fffffffffffu64;
pub const MAX_U47: u64 = 0x7fffffffffffu64;
pub const MAX_U48: u64 = 0xffffffffffffu64;
pub const MAX_U49: u64 = 0x1ffffffffffffu64;
pub const MAX_U50: u64 = 0x3ffffffffffffu64;
pub const MAX_U51: u64 = 0x7ffffffffffffu64;
pub const MAX_U52: u64 = 0xfffffffffffffu64;
pub const MAX_U53: u64 = 0x1fffffffffffffu64;
pub const MAX_U54: u64 = 0x3fffffffffffffu64;
pub const MAX_U55: u64 = 0x7fffffffffffffu64;
pub const MAX_U56: u64 = 0xffffffffffffffu64;
pub const MAX_U57: u64 = 0x1ffffffffffffffu64;
pub const MAX_U58: u64 = 0x3ffffffffffffffu64;
pub const MAX_U59: u64 = 0x7ffffffffffffffu64;
pub const MAX_U60: u64 = 0xfffffffffffffffu64;
pub const MAX_U61: u64 = 0x1fffffffffffffffu64;
pub const MAX_U62: u64 = 0x3fffffffffffffffu64;
pub const MAX_U63: u64 = 0x7fffffffffffffffu64;
pub const MAX_U64: u64 = 0xffffffffffffffffu64;

/// `n` bits are the fewest, and at least one, that hold `v`: `v` is at most the largest value
/// of `n` bits, and, unless `n` is one, more than the largest value of one bit fewer.
pub open spec fn is_bits_needed(v: int, n: nat) -> bool {
    &&& 1 <= n <= 64
    &&& v <= low_bits_mask(n)
    &&& (n == 1 || v > low_bits_mask((n - 1) as nat))
}

/// The number of bits needed to store `v`: the fewest, and at least one, that hold it.
pub open spec fn bits_needed(v: u64) -> usize {
    choose|n: usize| is_bits_needed(v as int, n as nat)
}

/// The number of bits needed by a value is the fewest that hold it.
pub proof fn lemma_bits_needed_holds(v: u64)
    ensures
        is_bits_needed(v as int, bits_needed(v) as nat),
{
    let n = number_of_bits_spec_witness(v);
    assert(is_bits_needed(v as int, n as nat));
}

/// A number of bits that `v` needs, searched upward from `n`.
proof fn number_of_bits_witness_from(v: u64, n: nat) -> (m: nat)
    requires
        1 <= n <= 64,
        n == 1 || v > low_bits_mask((n - 1) as nat),
    ensures
        is_bits_needed(v as int, m),
    decreases 64 - n,
{
    lemma_masks();
    if n == 64 || v <= low_bits_mask(n) {
        n
    } else {
        number_of_bits_witness_from(v, n + 1)
    }
}

/// A number of bits that `v` needs.
proof fn number_of_bits_spec_witness(v: u64) -> (n: usize)
    ensures
        is_bits_needed(v as int, n as nat),
{
    let m = number_of_bits_witness_from(v, 1);
    m as usize
}

/// Shifting the all-ones value of `w` bits right by `s` leaves the all-ones value of `w - s` bits.
proof fn lemma_all_ones_shr(w: nat, s: nat)
    requires
        s <= w,
    ensures
        (pow2(w) - 1) / (pow2(s) as int) == pow2((w - s) as nat) - 1,
{
    let d = pow2(s) as int;
    let h = pow2((w - s) as nat) as int;
    lemma_pow2_adds((w - s) as nat, s);
    lemma_pow2_pos(s);
    lemma_pow2_pos((w - s) as nat);
    assert((h - 1) * d + (d - 1) == h * d - 1) by (nonlinear_arith);
    lemma_fundamental_div_mod_converse_div(pow2(w) - 1, d, h - 1, d - 1);
}

/// The largest values of the bit counts grow with the count.
proof fn lemma_low_bits_mask_increases(a: nat, b: nat)
    requires
        a < b,
    ensures
        low_bits_mask(a) < low_bits_mask(b),
{
    lemma_pow2_strictly_increases(a, b);
    lemma_pow2_pos(a);
}

/// At most one bit count is the number of bits needed by a value.
pub proof fn lemma_bits_needed_unique(v: int, n1: nat, n2: nat)
    requires
        is_bits_needed(v, n1),
        is_bits_needed(v, n2),
    ensures
        n1 == n2,
{
    if n1 < n2 {
        if n1 < (n2 - 1) as nat {
            lemma_low_bits_mask_increases(n1, (n2 - 1) as nat);
        }
    } else if n2 < n1 {
        if n2 < (n1 - 1) as nat {
            lemma_low_bits_mask_increases(n2, (n1 - 1) as nat);
        }
    }
}

/// The largest value of each number of bits from one to sixty-four.
proof fn lemma_masks()
    ensures
        forall|n: nat| 1 <= n <= 64 ==> low_bits_mask(n) <= u64::MAX,
        low_bits_mask(0) == 0,
        low_bits_mask(64) == u64::MAX,
{
    lemma2_to64();
    lemma2_to64_rest();
    assert forall|n: nat| 1 <= n <= 64 implies low_bits_mask(n) <= u64::MAX by {
        if n < 64 {
            lemma_pow2_strictly_increases(n, 64);
        }
    }
}

/// The largest value that `bits` bits hold, as a `u8`.
pub fn max_u8(bits: usize) -> (r: u8)
    requires
        1 <= bits <= 8,
    ensures
        r == low_bits_mask(bits as nat),
{
    let shift = (8 - bits) as u8;
    proof {
        lemma_u8_shr_is_div(u8::MAX, shift);
        lemma2_to64();
        lemma_all_ones_shr(8, shift as nat);
    }
    u8::MAX >> shift
}

/// The largest value that `bits` bits hold, as a `u16`.
pub fn max_u16(bits: usize) -> (r: u16)
    requires
        1 <= bits <= 16,
    ensures
        r == low_bits_mask(bits as nat),
{
    let shift = (16 - bits) as u16;
    proof {
        lemma_u16_shr_is_div(u16::MAX, shift);
        lemma2_to64();
        lemma_all_ones_shr(16, shift as nat);
    }
    u16::MAX >> shift
}

/// The largest value that `bits` bits hold, as a `u32`.
pub fn max_u32(bits: usize) -> (r: u32)
    requires
        1 <= bits <= 32,
    ensures
        r == low_bits_mask(bits as nat),
{
    let shift = (32 - bits) as u32;
    proof {
        lemma_u32_shr_is_div(u32::MAX, shift);
        lemma2_to64();
        lemma_all_ones_shr(32, shift as nat);
    }
    u32::MAX >> shift
}

/// The largest value that `bits` bits hold, as a `u64`.
pub fn max_u64(bits: usize) -> (r: u64)
    requires
        1 <= bits <= 64,
    ensures
        r == low_bits_mask(bits as nat),
{
    let shift = (64 - bits) as u64;
    proof {
        lemma_u64_shr_is_div(u64::MAX, shift);
        lemma2_to64();
        lemma_all_ones_shr(64, shift as nat);
    }
    u64::MAX >> shift
}

/// Converts a maximum value given by user to its storing bits number; 
/// and then to the maximum value these bits can store.
pub fn max_bitwise_value(max_user_value: u64) -> (r: u64)
    ensures
        r == low_bits_mask(bits_needed(max_user_value) as nat),
{
    max_bitwise_value_for_bits(number_of_bits(max_user_value))
}

/// The maximum value that can be stored in the given number of bits
pub fn max_bitwise_value_for_bits(number_of_bits: usize) -> (r: u64)
    requires
        0 < number_of_bits <= 64,
    ensures
        r == low_bits_mask(number_of_bits as nat),
{
    if number_of_bits <= 32 {
        if number_of_bits <= 16 {
            if number_of_bits <= 8 {
                max_u8(number_of_bits) as u64
            } else {
                max_u16(number_of_bits) as u64
            }
        } else {
            max_u32(number_of_bits) as u64
        }
    } else {
        max_u64(number_of_bits)
    }
}

/// The maximum value that can be stored in the given number of bits; zero bits store only
/// zero, and sixty-four or more bits store up to the largest `u64`.
pub fn max_bitwise_value_for_bits_2(number_of_bits: usize) -> (r: u64)
    ensures
        r == (if number_of_bits >= 64 { u64::MAX as nat } else { low_bits_mask(number_of_bits as nat) }),
{
    proof {
        vstd::bits::lemma_low_bits_mask_values();
        lemma2_to64();
        lemma2_to64_rest();
    }

    if number_of_bits <= 32 {
        if number_of_bits <= 16 {
            if number_of_bits <= 8 {
                if number_of_bits <= 4 {
                    if number_of_bits <= 2 {
                        if number_of_bits == 1 {
                            MAX_U1 as u64
                        } else if number_of_bits == 2 {
                            MAX_U2 as u64
                        } else {
                            // zero bits hold nothing but zero
                            0
                        }
                    } else {
                        if number_of_bits == 3 {
                            MAX_U3 as u64
                        } else {
                            MAX_U4 as u64
                        }
                    }
                } else {
                    if number_of_bits <= 6 {
                        if number_of_bits == 5 {
                            MAX_U5 as u64
                        } else {
                            MAX_U6 as u64
                        }
                    } else {
                        if number_of_bits == 7 {
                            MAX_U7 as u64
                        } else {
                            MAX_U8 as u64
                        }
                    }
                }
            } else {
                if number_of_bits <= 12 {
                    if number_of_bits <= 10 {
                        if number_of_bits == 9 {
                            MAX_U9 as u64
                        } else {
                            MAX_U10 as u64
                        }
                    } else {
                        if number_of_bits == 11 {
                            MAX_U11 as u64
                        } else {
                            MAX_U12 as u64
                        }
                    }
                } else {
                    if number_of_bits <= 14 {
                        if number_of_bits == 13 {
                            MAX_U13 as u64
                        } else {
                            MAX_U14 as u64
                        }
                    } else {
                        if number_of_bits == 15 {
                            MAX_U15 as u64
                        } else {
                            MAX_U16 as u64
                        }
                    }
                }
            }
        } else {
            if number_of_bits <= 24 {
                if number_of_bits <= 20 {
                    if number_of_bits <= 18 {
                        if number_of_bits == 17 {
                            MAX_U17 as u64
                        } else {
                            MAX_U18 as u64
                        }
                    } else {
                        if number_of_bits == 19 {
                            MAX_U19 as u64
                        } else {
                            MAX_U20 as u64
                        }
                    }
                } else {
                    if number_of_bits <= 22 {
                        if number_of_bits == 21 {
                            MAX_U21 as u64
                        } else {
                            MAX_U22 as u64
                        }
                    } else {
                        if number_of_bits == 23 {
                            MAX_U23 as u64
                        } else {
                            MAX_U24 as u64
                        }
                    }
                }
            } else {
                if number_of_bits <= 28 {
                    if number_of_bits <= 26 {
                        if number_of_bits == 25 {
                            MAX_U25 as u64
                        } else {
                            MAX_U26 as u64
                        }
                    } else {
                        if number_of_bits == 27 {
                            MAX_U27 as u64
                        } else {
                            MAX_U28 as u64
                        }
                    }
                } else {
                    if number_of_bits <= 30 {
                        if number_of_bits == 29 {
                            MAX_U29 as u64
                        } else {
                            MAX_U30 as u64
                        }
                    } else {
                        if number_of_bits == 31 {
                            MAX_U31 as u64
                        } else {
                            MAX_U32 as u64
                        }
                    }
                }
            }
        }
    } else {
        if number_of_bits <= 48 {
            if number_of_bits <= 40 {
                if number_of_bits <= 36 {
                    if number_of_bits <= 34 {
                        if number_of_bits == 33 {
                            MAX_U33 as u64
                        } else {
                            MAX_U34 as u64
                        }
                    } else {
                        if number_of_bits == 35 {
                            MAX_U35 as u64
                        } else {
                            MAX_U36 as u64
                        }
                    }
                } else {
                    if number_of_bits <= 38 {
                        if number_of_bits == 37 {
                            MAX_U37 as u64
                        } else {
                            MAX_U38 as u64
                        }
                    } else {
                        if number_of_bits == 39 {
                            MAX_U39 as u64
                        } else {
                            MAX_U40 as u64
                        }
                    }
                }
            } else {
                if number_of_bits <= 44 {
                    if number_of_bits <= 42 {
                        if number_of_bits == 41 {
                            MAX_U41 as u64
                        } else {
                            MAX_U42 as u64
                        }
                    } else {
                        if number_of_bits == 43 {
                            MAX_U43 as u64
                        } else {
                            MAX_U44 as u64
                        }
                    }
                } else {
                    if number_of_bits <= 46 {
                        if number_of_bits == 45 {
                            MAX_U45 as u64
                        } else {
                            MAX_U46 as u64
                        }
                    } else {
                        if number_of_bits == 47 {
                            MAX_U47 as u64
                        } else {
                            MAX_U48 as u64
                        }
                    }
                }
            }
        } else {
            if number_of_bits <= 56 {
                if number_of_bits <= 52 {
                    if number_of_bits <= 50 {
                        if number_of_bits == 49 {
                            MAX_U49 as u64
                        } else {
                            MAX_U50 as u64
                        }
                    } else {
                        if number_of_bits == 51 {
                            MAX_U51 as u64
                        } else {
                            MAX_U52 as u64
                        }
                    }
                } else {
                    if number_of_bits <= 54 {
                        if number_of_bits == 53 {
                            MAX_U53 as u64
                        } else {
                            MAX_U54 as u64
                        }
                    } else {
                        if number_of_bits == 55 {
                            MAX_U55 as u64
                        } else {
                            MAX_U56 as u64
                        }
                    }
                }
            } else {
                if number_of_bits <= 60 {
                    if number_of_bits <= 58 {
                        if number_of_bits == 57 {
                            MAX_U57 as u64
                        } else {
                            MAX_U58 as u64
                        }
                    } else {
                        if number_of_bits == 59 {
                            MAX_U59 as u64
                        } else {
                            MAX_U60 as u64
                        }
                    }
                } else {
                    if number_of_bits <= 62 {
                        if number_of_bits == 61 {
                            MAX_U61 as u64
                        } else {
                            MAX_U62 as u64
                        }
                    } else {
                        if number_of_bits == 63 {
                            MAX_U63 as u64
                        } else {
                            MAX_U64 as u64
                        }
                    }
                }
            }
        }
    }

}

/// The number of bits that are needed to store the given maximum integer value
pub fn number_of_bits(max_value: u64) -> (r: usize)
    ensures
        is_bits_needed(max_value as int, r as nat),
        r == bits_needed(max_value),
{
    proof {
        vstd::bits::lemma_low_bits_mask_values();
        lemma2_to64();
        lemma2_to64_rest();
    }
    let r = number_of_bits_search(max_value);
    proof {
        let n = bits_needed(max_value);
        assert(is_bits_needed(max_value as int, r as nat));
        assert(is_bits_needed(max_value as int, n as nat)) by {
            assert(exists|m: usize| is_bits_needed(max_value as int, m as nat));
        }
        lemma_bits_needed_unique(max_value as int, r as nat, n as nat);
    }
    r
}

/// The search of `number_of_bits`: a comparison with the largest value of the middle bit
/// count halves the bit counts that remain, down to one.
fn number_of_bits_search(max_value: u64) -> (r: usize)
    ensures
        is_bits_needed(max_value as int, r as nat),
{
    proof {
        vstd::bits::lemma_low_bits_mask_values();
        lemma2_to64();
        lemma2_to64_rest();
    }

    if max_value as u64 <= MAX_U32 as u64 {
        if max_value as u32 <= MAX_U16 as u32 {
            if max_value as u16 <= MAX_U8 as u16 {
                if max_value as u8 <= MAX_U4 as u8 {
                    if max_value as u8 <= MAX_U2 as u8 {
                        if max_value as u8 <= MAX_U1 as u8 {
                            1
                        } else {
                            2
                        }
                    } else {
                        if max_value as u8 <= MAX_U3 as u8 {
                            3
                        } else {
                            4
                        }
                    }
                } else {
                    if max_value as u8 <= MAX_U6 as u8 {
                        if max_value as u8 <= MAX_U5 as u8 {
                            5
                        } else {
                            6
                        }
                    } else {
                        if max_value as u8 <= MAX_U7 as u8 {
                            7
                        } else {
                            8
                        }
                    }
                }
            } else {
                if max_value as u16 <= MAX_U12 as u16 {
                    if max_value as u16 <= MAX_U10 as u16 {
                        if max_value as u16 <= MAX_U9 as u16 {
                            9
                        } else {
                            10
                        }
                    } else {
                        if max_value as u16 <= MAX_U11 as u16 {
                            11
                        } else {
                            12
                        }
                    }
                } else {
                    if max_value as u16 <= MAX_U14 as u16 {
                        if max_value as u16 <= MAX_U13 as u16 {
                            13
                        } else {
                            14
                        }
                    } else {
                        if max_value as u16 <= MAX_U15 as u16 {
                            15
                        } else {
                            16
                        }
                    }
                }
            }
        } else {
            if max_value as u32 <= MAX_U24 as u32 {
                if max_value as u32 <= MAX_U20 as u32 {
                    if max_value as u32 <= MAX_U18 as u32 {
                        if max_value as u32 <= MAX_U17 as u32 {
                            17
                        } else {
                            18
                        }
                    } else {
                        if max_value as u32 <= MAX_U19 as u32 {
                            19
                        } else {
                            20
                        }
                    }
                } else {
                    if max_value as u32 <= MAX_U22 as u32 {
                        if max_value as u32 <= MAX_U21 as u32 {
                            21
                        } else {
                            22
                        }
                    } else {
                        if max_value as u32 <= MAX_U23 as u32 {
                            23
                        } else {
                            24
                        }
                    }
                }
            } else {
                if max_value as u32 <= MAX_U28 as u32 {
                    if max_value as u32 <= MAX_U26 as u32 {
                        if max_value as u32 <= MAX_U25 as u32 {
                            25
                        } else {
                            26
                        }
                    } else {
                        if max_value as u32 <= MAX_U27 as u32 {
                            27
                        } else {
                            28
                        }
                    }
                } else {
                    if max_value as u32 <= MAX_U30 as u32 {
                        if max_value as u32 <= MAX_U29 as u32 {
                            29
                        } else {
                            30
                        }
                    } else {
                        if max_value as u32 <= MAX_U31 as u32 {
                            31
                        } else {
                            32
                        }
                    }
                }
            }
        }
    } else {
        if max_value as u64 <= MAX_U48 as u64 {
            if max_value as u64 <= MAX_U40 as u64 {
                if max_value as u64 <= MAX_U36 as u64 {
                    if max_value as u64 <= MAX_U34 as u64 {
                        if max_value as u64 <= MAX_U33 as u64 {
                            33
                        } else {
                            34
                        }
                    } else {
                        if max_value as u64 <= MAX_U35 as u64 {
                            35
                        } else {
                            36
                        }
                    }
                } else {
                    if max_value as u64 <= MAX_U38 as u64 {
                        if max_value as u64 <= MAX_U37 as u64 {
                            37
                        } else {
                            38
                        }
                    } else {
                        if max_value as u64 <= MAX_U39 as u64 {
                            39
                        } else {
                            40
                        }
                    }
                }
            } else {
                if max_value as u64 <= MAX_U44 as u64 {
                    if max_value as u64 <= MAX_U42 as u64 {
                        if max_value as u64 <= MAX_U41 as u64 {
                            41
                        } else {
                            42
                        }
                    } else {
                        if max_value as u64 <= MAX_U43 as u64 {
                            43
                        } else {
                            44
                        }
                    }
                } else {
                    if max_value as u64 <= MAX_U46 as u64 {
                        if max_value as u64 <= MAX_U45 as u64 {
                            45
                        } else {
                            46
                        }
                    } else {
                        if max_value as u64 <= MAX_U47 as u64 {
                            47
                        } else {
                            48
                        }
                    }
                }
            }
        } else {
            if max_value as u64 <= MAX_U56 as u64 {
                if max_value as u64 <= MAX_U52 as u64 {
                    if max_value as u64 <= MAX_U50 as u64 {
                        if max_value as u64 <= MAX_U49 as u64 {
                            49
                        } else {
                            50
                        }
                    } else {
                        if max_value as u64 <= MAX_U51 as u64 {
                            51
                        } else {
                            52
                        }
                    }
                } else {
                    if max_value as u64 <= MAX_U54 as u64 {
                        if max_value as u64 <= MAX_U53 as u64 {
                            53
                        } else {
                            54
                        }
                    } else {
                        if max_value as u64 <= MAX_U55 as u64 {
                            55
                        } else {
                            56
                        }
                    }
                }
            } else {
                if max_value as u64 <= MAX_U60 as u64 {
                    if max_value as u64 <= MAX_U58 as u64 {
                        if max_value as u64 <= MAX_U57 as u64 {
                            57
                        } else {
                            58
                        }
                    } else {
                        if max_value as u64 <= MAX_U59 as u64 {
                            59
                        } else {
                            60
                        }
                    }
                } else {
                    if max_value as u64 <= MAX_U62 as u64 {
                        if max_value as u64 <= MAX_U61 as u64 {
                            61
                        } else {
                            62
                        }
                    } else {
                        if max_value as u64 <= MAX_U63 as u64 {
                            63
                        } else {
                            64
                        }
                    }
                }
            }
        }
    }

}

} // verus!
