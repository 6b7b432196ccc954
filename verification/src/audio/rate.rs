//! Playback rates.
//!
//! Rates are bit patterns of 64-bit floating point numbers. Positive numbers
//! are in the same order as their patterns; how far two rates are apart is
//! handed in.

use vstd::prelude::*;

verus! {

/// Normal speed.
pub const UNIT_RATE: u64 = 0x3ff0_0000_0000_0000;

/// A quarter of normal speed.
pub const MIN_RATE: u64 = 0x3fd0_0000_0000_0000;

/// Sixteen times normal speed.
pub const MAX_RATE: u64 = 0x4030_0000_0000_0000;

/// The pattern of positive infinity.
pub const RATE_INFINITY: u64 = 0x7ff0_0000_0000_0000;

/// Rates that are a thousandth apart are the same.
pub const RATE_TOLERANCE: u64 = 0x3f50_624d_d2f1_a9fc;

/// A rate within its range; what is not a positive number is normal speed.
pub open spec fn normalized_rate(rate: u64) -> u64 {
    if 0 < rate < RATE_INFINITY {
        if rate < MIN_RATE {
            MIN_RATE
        } else if rate > MAX_RATE {
            MAX_RATE
        } else {
            rate
        }
    } else {
        UNIT_RATE
    }
}

pub fn normalize_playback_rate(rate: u64) -> (normalized: u64)
    ensures
        normalized == normalized_rate(rate),
{
    if 0 < rate && rate < RATE_INFINITY {
        if rate < MIN_RATE {
            MIN_RATE
        } else if rate > MAX_RATE {
            MAX_RATE
        } else {
            rate
        }
    } else {
        UNIT_RATE
    }
}

/// A rate that is within its range stays as it is.
pub proof fn lemma_normalized_rate_is_in_range(rate: u64)
    ensures
        MIN_RATE <= normalized_rate(rate) <= MAX_RATE,
        MIN_RATE <= rate <= MAX_RATE ==> normalized_rate(rate) == rate,
        normalized_rate(normalized_rate(rate)) == normalized_rate(rate),
{
}

/// `distance` accepts everything and depends on its arguments alone.
pub open spec fn is_distance<D: Fn(u64, u64) -> u64>(distance: D) -> bool {
    &&& forall|left: u64, right: u64| #[trigger] distance.requires((left, right))
    &&& forall|left: u64, right: u64, first: u64, second: u64|
        #[trigger] distance.ensures((left, right), first) && #[trigger] distance.ensures(
            (left, right),
            second,
        ) ==> first == second
}

/// How far `distance` says that two rates are apart.
pub open spec fn distance_of<D: Fn(u64, u64) -> u64>(distance: D, left: u64, right: u64) -> u64 {
    choose|apart: u64| distance.ensures((left, right), apart)
}

} // verus!
