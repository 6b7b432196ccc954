//! Bit patterns of 32-bit floating point numbers.
//!
//! Colour and luminance values pass through this crate as bit patterns.
//! Comparing positive numbers needs no floating point: their patterns are in
//! the same order as the numbers.

use vstd::prelude::*;

verus! {

/// The bit pattern of a 32-bit floating point number.
pub type FloatBits = u32;

pub const ZERO: FloatBits = 0;

pub const ONE: FloatBits = 0x3f80_0000;

/// The pattern of positive infinity; larger ones without the sign bit are not
/// numbers.
pub const INFINITY: FloatBits = 0x7f80_0000;

/// Whether `value` is a number greater than the positive number `floor`.
pub open spec fn is_above(value: FloatBits, floor: FloatBits) -> bool {
    floor < value <= INFINITY
}

/// The larger of a value and the positive number `floor`; a value that is not
/// a number counts as smaller.
pub open spec fn at_least(value: FloatBits, floor: FloatBits) -> FloatBits {
    if is_above(value, floor) {
        value
    } else {
        floor
    }
}

pub fn larger_of(value: FloatBits, floor: FloatBits) -> (larger: FloatBits)
    ensures
        larger == at_least(value, floor),
{
    if floor < value && value <= INFINITY {
        value
    } else {
        floor
    }
}

/// The pattern of negative zero.
pub const NEGATIVE_ZERO: FloatBits = 0x8000_0000;

/// The pattern of negative infinity; larger ones are not numbers.
pub const NEGATIVE_INFINITY: FloatBits = 0xff80_0000;

/// Whether a pattern stands for a number.
pub open spec fn is_number(value: FloatBits) -> bool {
    value <= INFINITY || NEGATIVE_ZERO <= value <= NEGATIVE_INFINITY
}

/// Whether two patterns stand for the same number: the two zeros do, and what
/// is not a number equals nothing.
pub open spec fn same_number(left: FloatBits, right: FloatBits) -> bool {
    &&& is_number(left)
    &&& is_number(right)
    &&& left == right || ((left == ZERO || left == NEGATIVE_ZERO) && (right == ZERO || right
        == NEGATIVE_ZERO))
}

pub fn equal(left: FloatBits, right: FloatBits) -> (same: bool)
    ensures
        same == same_number(left, right),
{
    let left_number: bool = left <= INFINITY || (NEGATIVE_ZERO <= left && left
        <= NEGATIVE_INFINITY);
    let right_number: bool = right <= INFINITY || (NEGATIVE_ZERO <= right && right
        <= NEGATIVE_INFINITY);
    left_number && right_number && (left == right || ((left == ZERO || left == NEGATIVE_ZERO) && (
    right == ZERO || right == NEGATIVE_ZERO)))
}

/// Raising a value to a floor twice changes nothing more.
pub proof fn lemma_at_least_is_idempotent(value: FloatBits, floor: FloatBits)
    ensures
        at_least(at_least(value, floor), floor) == at_least(value, floor),
{
}

} // verus!
