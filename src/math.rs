//! Common math operations for doing art: clamping into a range, and mapping
//! a value from one range onto another.

use vstd::prelude::*;
use vstd::std_specs::cmp::{PartialOrdIs, PartialOrdSpec};
use vstd::std_specs::ops::{AddSpec, DivSpec, MulSpec, SubSpec};
use core::ops::{Add, Div, Mul, Range, RangeInclusive, Sub};

verus! {

/// Relies on `RangeInclusive::into_inner`: it hands back the range's lower
/// and upper bounds, as the range was built with them.
pub assume_specification<Idx>[ RangeInclusive::<Idx>::into_inner ](r: RangeInclusive<Idx>) -> (bounds: (Idx, Idx))
    ensures
        bounds.0 == r@.start,
        bounds.1 == r@.end,
;

/// Represent types that can be restricted by a given range type.
///
/// This would've been called `Clamp`, except that there's a standard library
/// method called `clamp`.
pub trait Restrict<RangeType>: Sized {
    /// Restrict a value into a given range: below the minimum bound it is
    /// clamped to that bound, above the maximum bound to that one.
    fn restrict(self, range: RangeType) -> Self;
}

/// `v` held between `start` and `end`, the upper bound checked first.
pub open spec fn restricted<T: PartialOrd>(v: T, start: T, end: T) -> T {
    if v.is_gt(&end) {
        end
    } else if v.is_lt(&start) {
        start
    } else {
        v
    }
}

impl<T: PartialOrd> Restrict<RangeInclusive<T>> for T {
    fn restrict(self, range: RangeInclusive<T>) -> (r: T)
        ensures
            T::obeys_partial_cmp_spec() ==> r == restricted(self, range@.start, range@.end),
    {
        let (start, end) = range.into_inner();
        if self > end {
            return end;
        }
        if self < start {
            return start;
        }
        self
    }
}

/// Represents a type that can be mapped between two ranges.
pub trait Remap: Sized {
    /// Whether the arithmetic of a remap is defined on these values.
    spec fn remap_defined(self, from: Range<Self>, onto: Range<Self>) -> bool;

    /// The remapped value.
    spec fn remapped(self, from: Range<Self>, onto: Range<Self>) -> Self;

    /// Remap a value from one range to another. A value outside the bounds of
    /// one range will be similarly outside the bounds of the other.
    fn remap(self, from: Range<Self>, onto: Range<Self>) -> (r: Self)
        requires
            self.remap_defined(from, onto),
        ensures
            r == self.remapped(from, onto),
    ;
}

impl<T> Remap for T where T: Add<Output = T> + Sub<Output = T> + Mul<Output = T> + Div<Output = T> + Copy {
    /// Each operation obeys its specification and has its requirement met:
    /// for integers, no overflow and no division by zero.
    open spec fn remap_defined(self, from: Range<T>, onto: Range<T>) -> bool {
        let from_size = from.end.sub_spec(from.start);
        let onto_size = onto.end.sub_spec(onto.start);
        let offset = self.sub_spec(from.start);
        let scaled = offset.mul_spec(onto_size);
        let shifted = scaled.div_spec(from_size);
        &&& T::obeys_add_spec()
        &&& T::obeys_sub_spec()
        &&& T::obeys_mul_spec()
        &&& T::obeys_div_spec()
        &&& from.end.sub_req(from.start)
        &&& onto.end.sub_req(onto.start)
        &&& self.sub_req(from.start)
        &&& offset.mul_req(onto_size)
        &&& scaled.div_req(from_size)
        &&& shifted.add_req(onto.start)
    }

    /// `(self - from.start) * (onto.end - onto.start) / (from.end - from.start) + onto.start`.
    open spec fn remapped(self, from: Range<T>, onto: Range<T>) -> T {
        let from_size = from.end.sub_spec(from.start);
        let onto_size = onto.end.sub_spec(onto.start);
        self.sub_spec(from.start).mul_spec(onto_size).div_spec(from_size).add_spec(onto.start)
    }

    fn remap(self, from: Range<T>, onto: Range<T>) -> (r: T) {
        let from_size = from.end - from.start;
        let onto_size = onto.end - onto.start;
        ((self - from.start) * onto_size / from_size) + onto.start
    }
}

} // verus!
