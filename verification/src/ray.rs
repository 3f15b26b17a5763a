//! Rays: a half-line in space together with the moment at which it is cast.

use crate::scalar::Scalar;
use crate::vector::{Point3, Vec3};
use vstd::prelude::*;

verus! {

/// A ray `origin + t * direction`, cast at `time` within the exposure.
#[derive(Clone, Copy, Debug)]
pub struct Ray {
    pub origin: Point3,
    pub direction: Vec3,
    pub time: Scalar,
}

impl Ray {
    /// The point of the ray at parameter `t`.
    pub open spec fn spec_at(self, t: Scalar) -> Point3 {
        self.origin.spec_add(self.direction.spec_scale(t))
    }

    /// The same ray with its direction normalized.
    pub open spec fn spec_unit_vector(self) -> Ray {
        Ray { origin: self.origin, direction: self.direction.spec_normalize(), time: self.time }
    }

    /// The ray that `new` returns.
    pub open spec fn spec_new() -> Ray {
        Ray { origin: Vec3::spec_zero(), direction: Vec3::spec_zero(), time: Scalar::spec_zero() }
    }

    /// The ray that starts at the zero point, has the zero direction and is
    /// cast at time zero.
    pub fn new() -> (r: Ray)
        ensures
            r == Ray::spec_new(),
    {
        Ray { origin: Vec3::zero(), direction: Vec3::zero(), time: Scalar::zero() }
    }

    /// The ray with the given origin, direction and time.
    pub fn from(origin: Point3, direction: Vec3, time: Scalar) -> (r: Ray)
        ensures
            r == (Ray { origin, direction, time }),
    {
        Ray { origin, direction, time }
    }

    /// The origin.
    pub fn origin(&self) -> (r: Point3)
        ensures
            r == self.origin,
    {
        self.origin
    }

    /// The direction.
    pub fn direction(&self) -> (r: Vec3)
        ensures
            r == self.direction,
    {
        self.direction
    }

    /// The moment at which the ray is cast.
    pub fn time(&self) -> (r: Scalar)
        ensures
            r == self.time,
    {
        self.time
    }

    /// The point of the ray at parameter `t`: `origin + t * direction`.
    pub fn at(&self, t: Scalar) -> (r: Point3)
        ensures
            r == self.spec_at(t),
    {
        self.origin + t * self.direction
    }

    /// The same ray with its direction normalized.
    pub fn unit_vector(&self) -> (r: Ray)
        ensures
            r == self.spec_unit_vector(),
    {
        Ray { origin: self.origin, direction: self.direction.normalize(), time: self.time }
    }
}

} // verus!
