//! Predicates on single-precision scalars, told from their bit patterns.
//!
//! A scalar travels as the `u32` of its IEEE 754 encoding: one sign bit,
//! eight exponent bits, twenty-three fraction bits.

use vstd::prelude::*;

verus! {

/// The bit pattern of one.
pub const ONE_BITS: u32 = 0x3f80_0000;

/// The bit pattern of positive infinity.
pub const INFINITY_BITS: u32 = 0x7f80_0000;

/// The sign bit.
pub const SIGN_BIT: u32 = 0x8000_0000;

/// The encoding without its sign: the patterns of the absolute value.
pub open spec fn magnitude(bits: u32) -> int {
    if bits >= SIGN_BIT {
        bits - SIGN_BIT
    } else {
        bits as int
    }
}

/// Not an infinity and not a NaN: the exponent is not all ones.
pub open spec fn finite(bits: u32) -> bool {
    magnitude(bits) < INFINITY_BITS
}

/// A NaN: the exponent is all ones and the fraction is not zero.
pub open spec fn nan(bits: u32) -> bool {
    magnitude(bits) > INFINITY_BITS
}

/// Greater than zero.
pub open spec fn positive(bits: u32) -> bool {
    0 < bits <= INFINITY_BITS
}

/// At least zero; both zeros count.
pub open spec fn non_negative(bits: u32) -> bool {
    bits <= INFINITY_BITS || bits == SIGN_BIT
}

/// At most zero; both zeros count.
pub open spec fn at_most_zero(bits: u32) -> bool {
    !nan(bits) && (bits >= SIGN_BIT || bits == 0)
}

/// At most one.
pub open spec fn at_most_one(bits: u32) -> bool {
    !nan(bits) && (bits >= SIGN_BIT || bits <= ONE_BITS)
}

/// Less than one.
pub open spec fn below_one(bits: u32) -> bool {
    !nan(bits) && (bits >= SIGN_BIT || bits < ONE_BITS)
}

pub fn is_finite(bits: u32) -> (r: bool)
    ensures
        r == finite(bits),
{
    if bits >= SIGN_BIT {
        bits - SIGN_BIT < INFINITY_BITS
    } else {
        bits < INFINITY_BITS
    }
}

pub fn is_positive(bits: u32) -> (r: bool)
    ensures
        r == positive(bits),
{
    0 < bits && bits <= INFINITY_BITS
}

pub fn is_non_negative(bits: u32) -> (r: bool)
    ensures
        r == non_negative(bits),
{
    bits <= INFINITY_BITS || bits == SIGN_BIT
}

pub fn is_at_most_zero(bits: u32) -> (r: bool)
    ensures
        r == at_most_zero(bits),
{
    if bits >= SIGN_BIT {
        bits - SIGN_BIT <= INFINITY_BITS
    } else {
        bits == 0
    }
}

pub fn is_at_most_one(bits: u32) -> (r: bool)
    ensures
        r == at_most_one(bits),
{
    if bits >= SIGN_BIT {
        bits - SIGN_BIT <= INFINITY_BITS
    } else {
        bits <= ONE_BITS
    }
}

pub fn is_below_one(bits: u32) -> (r: bool)
    ensures
        r == below_one(bits),
{
    if bits >= SIGN_BIT {
        bits - SIGN_BIT <= INFINITY_BITS
    } else {
        bits < ONE_BITS
    }
}

/// The predicates read off the fields of the encoding: the sign is the highest
/// bit, the exponent the next eight with 127 for the numbers from one up to
/// two, the fraction the rest. An exponent of all ones is an infinity where the
/// fraction is zero and a NaN elsewhere, and a NaN compares with nothing.
pub proof fn law_predicates_follow_the_encoding(bits: u32)
    ensures
        ({
            let negative = bits >= 0x8000_0000;
            let exponent = (bits as int / 0x80_0000) % 256;
            let fraction = bits as int % 0x80_0000;
            let zero = exponent == 0 && fraction == 0;
            &&& finite(bits) <==> exponent < 255
            &&& nan(bits) <==> exponent == 255 && fraction != 0
            &&& positive(bits) <==> !negative && !zero && !nan(bits)
            &&& non_negative(bits) <==> zero || positive(bits)
            &&& at_most_zero(bits) <==> !nan(bits) && !positive(bits)
            &&& below_one(bits) <==> !nan(bits) && (negative || exponent < 127)
            &&& at_most_one(bits) <==> below_one(bits) || (!negative && exponent == 127
                && fraction == 0)
        }),
{
}

} // verus!
