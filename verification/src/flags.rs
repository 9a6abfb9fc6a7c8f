//! Sets of flags in one byte. A flag is a bit, named by its weight: 1 for
//! bit 0, 2 for bit 1, up to 128 for bit 7.

use vstd::prelude::*;

verus! {

/// Whether the bit of weight `weight`, a power of two, is set in `bits`.
pub open spec fn has_bit(bits: u8, weight: u8) -> bool {
    bits / weight % 2 == 1
}

/// Whether every bit of `mask` is set in `bits`.
pub open spec fn covers(bits: u8, mask: u8) -> bool {
    &&& has_bit(mask, 0x01) ==> has_bit(bits, 0x01)
    &&& has_bit(mask, 0x02) ==> has_bit(bits, 0x02)
    &&& has_bit(mask, 0x04) ==> has_bit(bits, 0x04)
    &&& has_bit(mask, 0x08) ==> has_bit(bits, 0x08)
    &&& has_bit(mask, 0x10) ==> has_bit(bits, 0x10)
    &&& has_bit(mask, 0x20) ==> has_bit(bits, 0x20)
    &&& has_bit(mask, 0x40) ==> has_bit(bits, 0x40)
    &&& has_bit(mask, 0x80) ==> has_bit(bits, 0x80)
}

/// Whether no bit of `mask` is set in `bits`.
pub open spec fn avoids(bits: u8, mask: u8) -> bool {
    &&& has_bit(mask, 0x01) ==> !has_bit(bits, 0x01)
    &&& has_bit(mask, 0x02) ==> !has_bit(bits, 0x02)
    &&& has_bit(mask, 0x04) ==> !has_bit(bits, 0x04)
    &&& has_bit(mask, 0x08) ==> !has_bit(bits, 0x08)
    &&& has_bit(mask, 0x10) ==> !has_bit(bits, 0x10)
    &&& has_bit(mask, 0x20) ==> !has_bit(bits, 0x20)
    &&& has_bit(mask, 0x40) ==> !has_bit(bits, 0x40)
    &&& has_bit(mask, 0x80) ==> !has_bit(bits, 0x80)
}

/// A bit is set exactly when the bitwise "and" with its weight is not
/// zero.
proof fn and_tests_bit(bits: u8)
    by (bit_vector)
    ensures
        (bits & 0x01 != 0) == (bits / 0x01 % 2 == 1),
        (bits & 0x02 != 0) == (bits / 0x02 % 2 == 1),
        (bits & 0x04 != 0) == (bits / 0x04 % 2 == 1),
        (bits & 0x08 != 0) == (bits / 0x08 % 2 == 1),
        (bits & 0x10 != 0) == (bits / 0x10 % 2 == 1),
        (bits & 0x20 != 0) == (bits / 0x20 % 2 == 1),
        (bits & 0x40 != 0) == (bits / 0x40 % 2 == 1),
        (bits & 0x80 != 0) == (bits / 0x80 % 2 == 1),
{
}

/// The bitwise "and" with a mask is the mask exactly when every bit of the
/// mask is set.
proof fn and_is_mask(bits: u8, mask: u8)
    by (bit_vector)
    ensures
        (bits & mask == mask) == ((mask & 0x01 != 0 ==> bits & 0x01 != 0) && (mask & 0x02 != 0
            ==> bits & 0x02 != 0) && (mask & 0x04 != 0 ==> bits & 0x04 != 0) && (mask & 0x08 != 0
            ==> bits & 0x08 != 0) && (mask & 0x10 != 0 ==> bits & 0x10 != 0) && (mask & 0x20 != 0
            ==> bits & 0x20 != 0) && (mask & 0x40 != 0 ==> bits & 0x40 != 0) && (mask & 0x80 != 0
            ==> bits & 0x80 != 0)),
{
}

/// The bitwise "and" with a mask is zero exactly when no bit of the mask
/// is set.
proof fn and_is_zero(bits: u8, mask: u8)
    by (bit_vector)
    ensures
        (bits & mask == 0) == ((mask & 0x01 != 0 ==> bits & 0x01 == 0) && (mask & 0x02 != 0
            ==> bits & 0x02 == 0) && (mask & 0x04 != 0 ==> bits & 0x04 == 0) && (mask & 0x08 != 0
            ==> bits & 0x08 == 0) && (mask & 0x10 != 0 ==> bits & 0x10 == 0) && (mask & 0x20 != 0
            ==> bits & 0x20 == 0) && (mask & 0x40 != 0 ==> bits & 0x40 == 0) && (mask & 0x80 != 0
            ==> bits & 0x80 == 0)),
{
}

/// The two low bits of a byte are its remainder modulo 4.
proof fn and_is_remainder(bits: u8)
    by (bit_vector)
    ensures
        bits & 0x03 == bits % 4,
{
}

/// Whether every bit of `mask` is set in `bits`.
pub fn contains_all(bits: u8, mask: u8) -> (all: bool)
    ensures
        all == covers(bits, mask),
{
    proof {
        and_is_mask(bits, mask);
        and_tests_bit(bits);
        and_tests_bit(mask);
    }
    bits & mask == mask
}

/// Whether no bit of `mask` is set in `bits`.
pub fn contains_none(bits: u8, mask: u8) -> (none: bool)
    ensures
        none == avoids(bits, mask),
{
    proof {
        and_is_zero(bits, mask);
        and_tests_bit(bits);
        and_tests_bit(mask);
    }
    bits & mask == 0
}

/// The number in the two low bits of a byte.
pub fn low_two_bits(bits: u8) -> (low: u8)
    ensures
        low == bits % 4,
{
    proof {
        and_is_remainder(bits);
    }
    bits & 0x03
}

} // verus!
