//! Single-precision numbers as plain integers.
//!
//! Verified code carries a measured value or a coordinate as the 32 bits of
//! its IEEE 754 binary32 encoding: one sign bit, eight exponent bits, 23
//! fraction bits. This module says which encodings are numbers, and how two
//! numbers compare, in integer arithmetic alone.

use vstd::prelude::*;

verus! {

/// The sign bit's weight: encodings from here on are negative.
pub const SIGN_BIT: u32 = 0x8000_0000;

/// The encoding of positive infinity. A larger magnitude is not a number.
pub const INFINITY: u32 = 0x7f80_0000;

/// The encoding of negative infinity.
pub const NEG_INFINITY: u32 = 0xff80_0000;

/// The encoding without its sign bit.
pub open spec fn magnitude(bits: u32) -> int {
    bits as int % 0x8000_0000
}

/// Whether the encoding is one of the NaN encodings.
pub open spec fn is_nan(bits: u32) -> bool {
    magnitude(bits) > 0x7f80_0000
}

/// Whether the encoding is positive or negative zero.
pub open spec fn is_zero(bits: u32) -> bool {
    magnitude(bits) == 0
}

/// An integer that orders the numbers as their values are ordered: the
/// magnitude, negated under a set sign bit. Both zeros have the key 0.
pub open spec fn order_key(bits: u32) -> int {
    if bits >= 0x8000_0000 {
        -magnitude(bits)
    } else {
        magnitude(bits)
    }
}

/// `a < b` as numbers. False when either is not a number.
pub open spec fn less_than(a: u32, b: u32) -> bool {
    !is_nan(a) && !is_nan(b) && order_key(a) < order_key(b)
}

/// `a == b` as numbers: false when either is not a number, true of the two
/// zeros.
pub open spec fn same_number(a: u32, b: u32) -> bool {
    !is_nan(a) && !is_nan(b) && order_key(a) == order_key(b)
}

/// Whether the encoding is one of the NaN encodings.
pub fn is_not_a_number(bits: u32) -> (nan: bool)
    ensures
        nan == is_nan(bits),
{
    bits % SIGN_BIT > INFINITY
}

/// The key by which numbers are ordered.
pub fn key_of(bits: u32) -> (key: i64)
    ensures
        key == order_key(bits),
{
    let low: u32 = bits % SIGN_BIT;
    if bits >= SIGN_BIT {
        0i64 - low as i64
    } else {
        low as i64
    }
}

/// `a < b` as numbers.
pub fn is_less(a: u32, b: u32) -> (less: bool)
    ensures
        less == less_than(a, b),
{
    !is_not_a_number(a) && !is_not_a_number(b) && key_of(a) < key_of(b)
}

/// `a == b` as numbers.
pub fn is_same_number(a: u32, b: u32) -> (same: bool)
    ensures
        same == same_number(a, b),
{
    !is_not_a_number(a) && !is_not_a_number(b) && key_of(a) == key_of(b)
}

/// Numbers with the same value have the same encoding, but for the two
/// zeros.
pub proof fn lemma_same_number_bits(a: u32, b: u32)
    requires
        same_number(a, b),
    ensures
        a == b || (is_zero(a) && is_zero(b)),
{
}

} // verus!
