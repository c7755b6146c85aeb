//! Clamping a value into a range.

use vstd::prelude::*;
use vstd::std_specs::cmp::PartialOrdIs;
use vstd::std_specs::cmp::PartialOrdSpec;

verus! {

/// The value clamped between `min` and `max`: `min` where the value lies
/// below it, else `max` where the value lies above it, else the value.
pub open spec fn clamped<T: PartialOrd>(value: T, min: T, max: T) -> T {
    if value.is_lt(&min) {
        min
    } else if value.is_gt(&max) {
        max
    } else {
        value
    }
}

/// Clamps `value` between `min` and `max`. The lower bound is tested first,
/// so with `min` above `max` a value below `min` still gives `min`.
pub fn clamp<T: PartialOrd + Copy>(value: T, min: T, max: T) -> (result: T)
    ensures
        T::obeys_partial_cmp_spec() ==> result == clamped(value, min, max),
        result == value || result == min || result == max,
{
    if value < min {
        min
    } else if value > max {
        max
    } else {
        value
    }
}

/// Within an ordered range of integers the clamped value lies in the range,
/// and a value already in the range is left alone.
pub proof fn lemma_clamped_in_range(value: i64, min: i64, max: i64)
    requires
        min <= max,
    ensures
        min <= clamped(value, min, max) <= max,
        min <= value <= max ==> clamped(value, min, max) == value,
        value < min ==> clamped(value, min, max) == min,
        value > max ==> clamped(value, min, max) == max,
{
}

} // verus!
