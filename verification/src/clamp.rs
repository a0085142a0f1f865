//! Clamping: constraining a scalar, or each component of a vector, to a closed
//! interval, and leaving unchanged what already lies inside.

use crate::vector::Vec3;
use std::cmp::Ordering;
use vstd::prelude::*;
use vstd::std_specs::cmp::PartialOrdSpec;

verus! {

/// `x` constrained to the interval from `low` to `high`: `low` where `x` is below
/// it, else `high` where `x` is above it, else `x` itself. A value that the order
/// does not compare with a bound is left as it is.
pub open spec fn clamp_spec<T: PartialOrd>(x: T, low: T, high: T) -> T {
    if x.partial_cmp_spec(&low) == Some(Ordering::Less) {
        low
    } else if x.partial_cmp_spec(&high) == Some(Ordering::Greater) {
        high
    } else {
        x
    }
}

/// Constrains `x` to the interval from `low` to `high`.
pub fn clamp<T: Copy + PartialOrd>(x: T, low: T, high: T) -> (r: T)
    ensures
        r == x || r == low || r == high,
        T::obeys_partial_cmp_spec() ==> r == clamp_spec(x, low, high),
{
    if x < low {
        low
    } else if x > high {
        high
    } else {
        x
    }
}

impl<T: Copy + PartialOrd> Vec3<T> {
    /// Each component constrained to the interval from `low` to `high`.
    pub open spec fn clamped_spec(self, low: T, high: T) -> Vec3<T> {
        Vec3::spec_new(
            clamp_spec(self@[0], low, high),
            clamp_spec(self@[1], low, high),
            clamp_spec(self@[2], low, high),
        )
    }

    /// Constrains each component to the interval from `low` to `high`.
    pub fn clamped(self, low: T, high: T) -> (r: Vec3<T>)
        ensures
            forall|i: int|
                0 <= i < 3 ==> (#[trigger] r@[i]) == self@[i] || r@[i] == low || r@[i] == high,
            T::obeys_partial_cmp_spec() ==> r == self.clamped_spec(low, high),
            T::obeys_partial_cmp_spec() ==> r.has_components(
                clamp_spec(self@[0], low, high),
                clamp_spec(self@[1], low, high),
                clamp_spec(self@[2], low, high),
            ),
    {
        Vec3::new(clamp(self.x(), low, high), clamp(self.y(), low, high), clamp(self.z(), low, high))
    }
}

} // verus!
