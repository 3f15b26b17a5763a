//! Ranges of scalars, used to bound ray parameters and colour channels.

use crate::scalar::Scalar;
use vstd::prelude::*;

verus! {

/// The range from `min` to `max`. It is empty when `min` exceeds `max`.
#[derive(Clone, Copy, Debug)]
pub struct Interval {
    pub min: Scalar,
    pub max: Scalar,
}

impl Interval {
    /// `x` lies in the range, ends included.
    pub open spec fn spec_contains(self, x: Scalar) -> bool {
        self.min@ <= x@ && x@ <= self.max@
    }

    /// `x` lies in the range, ends excluded.
    pub open spec fn spec_surrounds(self, x: Scalar) -> bool {
        self.min@ < x@ && x@ < self.max@
    }

    /// The value of the range that is nearest to `x`.
    pub open spec fn spec_clamp(self, x: Scalar) -> Scalar {
        if x@ < self.min@ {
            self.min
        } else if x@ > self.max@ {
            self.max
        } else {
            x
        }
    }

    /// The range that holds nothing.
    pub open spec fn spec_empty() -> Interval {
        Interval { min: Scalar::spec_infinity(), max: Scalar::spec_neg_infinity() }
    }

    /// The range of all scalars.
    pub open spec fn spec_universe() -> Interval {
        Interval { min: Scalar::spec_neg_infinity(), max: Scalar::spec_infinity() }
    }

    /// The range from `min` to `max`.
    pub fn new(min: Scalar, max: Scalar) -> (r: Interval)
        ensures
            r == (Interval { min, max }),
    {
        Interval { min, max }
    }

    /// The range of all scalars, from minus infinity to plus infinity.
    pub fn default() -> (r: Interval)
        ensures
            r == Interval::spec_universe(),
    {
        Interval { min: Scalar::neg_infinity(), max: Scalar::infinity() }
    }

    /// The range that holds nothing: from plus infinity to minus infinity.
    pub fn empty() -> (r: Interval)
        ensures
            r == Interval::spec_empty(),
    {
        Interval { min: Scalar::infinity(), max: Scalar::neg_infinity() }
    }

    /// The range of all scalars.
    pub fn universe() -> (r: Interval)
        ensures
            r == Interval::spec_universe(),
    {
        Interval { min: Scalar::neg_infinity(), max: Scalar::infinity() }
    }

    /// Whether `x` lies in the range, ends included.
    pub fn contains(self, x: Scalar) -> (b: bool)
        ensures
            b == self.spec_contains(x),
    {
        self.min.le(x) && x.le(self.max)
    }

    /// Whether `x` lies in the range, ends excluded.
    pub fn surrounds(self, x: Scalar) -> (b: bool)
        ensures
            b == self.spec_surrounds(x),
    {
        self.min.lt(x) && x.lt(self.max)
    }

    /// The value of the range that is nearest to `x`.
    pub fn clamp(self, x: Scalar) -> (r: Scalar)
        ensures
            r == self.spec_clamp(x),
    {
        if x.lt(self.min) {
            self.min
        } else if x.gt(self.max) {
            self.max
        } else {
            x
        }
    }

    /// The upper end.
    pub fn max(self) -> (r: Scalar)
        ensures
            r == self.max,
    {
        self.max
    }

    /// The lower end.
    pub fn min(self) -> (r: Scalar)
        ensures
            r == self.min,
    {
        self.min
    }
}

} // verus!
