//! Spheres, at rest or moving in a straight line during the exposure.

use crate::interval::Interval;
use crate::lambert::Lambertian;
use crate::material::Surface;
use crate::ray::Ray;
use crate::scalar::{
    fx_add, fx_sub, group_scalar, lemma_div_monotone, lemma_div_range, lemma_sqrt_range, Scalar,
};
use crate::traceable::{lemma_face_normal_opposes, HitRecord, Traceable};
use crate::vector::{dot, lemma_magnitude_nonneg, lemma_results_wf, Point3, Vec3};
use core::ops::Neg;
use vstd::prelude::*;

verus! {

/// A sphere. A negative radius turns the normals inward, which makes the
/// inner face of a hollow shell. While `in_motion`, the centre moves from
/// `center` at time zero by `motion_blur_lerp_factor` until time one.
#[derive(Clone, Copy, Debug)]
pub struct Sphere {
    pub center: Point3,
    pub radius: Scalar,
    pub material: Surface,
    pub in_motion: bool,
    pub motion_blur_lerp_factor: Vec3,
}

/// The two solutions of the quadratic that a ray and a sphere set up.
pub struct Roots {
    pub near: Scalar,
    pub far: Scalar,
}

impl Sphere {
    /// The sphere that `new` returns.
    pub open spec fn spec_new() -> Sphere {
        Sphere {
            center: Vec3::spec_zero(),
            radius: Scalar::spec_zero(),
            material: Surface::Diffuse(Lambertian { albedo: Vec3::spec_zero() }),
            in_motion: false,
            motion_blur_lerp_factor: Vec3::spec_zero(),
        }
    }

    /// The centre at the given time.
    pub open spec fn spec_center(self, time: Scalar) -> Point3 {
        if self.in_motion {
            self.center.spec_add(self.motion_blur_lerp_factor.spec_scale(time))
        } else {
            self.center
        }
    }

    /// The vector from the centre, taken at the time of the ray, to the origin
    /// of the ray.
    pub open spec fn spec_offset(self, ray: Ray) -> Vec3 {
        ray.origin.spec_sub(self.spec_center(ray.time))
    }

    /// Coefficient `a = |D|^2` of the quadratic `a t^2 + 2 b t + c = 0`.
    pub open spec fn spec_a(self, ray: Ray) -> Scalar {
        ray.direction.spec_magnitude()
    }

    /// Coefficient `b = (O - C) . D`.
    pub open spec fn spec_half_b(self, ray: Ray) -> Scalar {
        self.spec_offset(ray).spec_dot(ray.direction)
    }

    /// Coefficient `c = |O - C|^2 - r^2`.
    pub open spec fn spec_c(self, ray: Ray) -> Scalar {
        self.spec_offset(ray).spec_dot(self.spec_offset(ray)).spec_sub(
            self.radius.spec_mul(self.radius),
        )
    }

    /// The discriminant `b^2 - a c`.
    pub open spec fn spec_discriminant(self, ray: Ray) -> Scalar {
        self.spec_half_b(ray).spec_mul(self.spec_half_b(ray)).spec_sub(
            self.spec_a(ray).spec_mul(self.spec_c(ray)),
        )
    }

    /// The solutions `(-b - sqrt(disc)) / a` and `(-b + sqrt(disc)) / a`,
    /// where the discriminant is not negative.
    pub open spec fn spec_roots(self, ray: Ray) -> Option<Roots> {
        let disc = self.spec_discriminant(ray);
        if disc@ < 0 {
            None
        } else {
            let root = disc.spec_sqrt();
            let minus_b = self.spec_half_b(ray).spec_neg();
            Some(
                Roots {
                    near: minus_b.spec_sub(root).spec_div(self.spec_a(ray)),
                    far: minus_b.spec_add(root).spec_div(self.spec_a(ray)),
                },
            )
        }
    }

    /// The parameter at which the ray strikes the sphere within the open
    /// range `within`: the near solution where the range admits it, else the
    /// far one where the range admits that.
    pub open spec fn spec_hit_parameter(self, ray: Ray, within: Interval) -> Option<Scalar> {
        match self.spec_roots(ray) {
            None => None,
            Some(roots) => if within.spec_surrounds(roots.near) {
                Some(roots.near)
            } else if within.spec_surrounds(roots.far) {
                Some(roots.far)
            } else {
                None
            },
        }
    }

    /// The outward normal at `point`: `(point - centre) / radius`.
    pub open spec fn spec_outward_normal(self, ray: Ray, point: Point3) -> Vec3 {
        point.spec_sub(self.spec_center(ray.time)).spec_shrink(self.radius)
    }

    /// The record of a strike at parameter `t`.
    pub open spec fn spec_record_at(self, ray: Ray, t: Scalar) -> HitRecord {
        let point = ray.spec_at(t);
        let outward = self.spec_outward_normal(ray, point);
        HitRecord {
            point,
            normal: HitRecord::spec_face_normal(ray.direction, outward),
            parameter: t,
            ray_faces_outside: HitRecord::spec_faces_outside(ray.direction, outward),
            material: self.material,
        }
    }

    /// The record of the strike of `ray` within `within`, if there is one.
    #[verifier::opaque]
    pub open spec fn spec_hit(self, ray: Ray, within: Interval) -> Option<HitRecord> {
        match self.spec_hit_parameter(ray, within) {
            None => None,
            Some(t) => Some(self.spec_record_at(ray, t)),
        }
    }

    /// A sphere of radius zero at the origin, with a black matte surface.
    pub fn new() -> (r: Sphere)
        ensures
            r == Sphere::spec_new(),
    {
        Sphere {
            center: Vec3::zero(),
            radius: Scalar::zero(),
            material: Surface::Diffuse(Lambertian { albedo: Vec3::zero() }),
            in_motion: false,
            motion_blur_lerp_factor: Vec3::zero(),
        }
    }

    /// A sphere whose centre moves from `center_start` at time zero to
    /// `center_end` at time one.
    pub fn new_in_motion(
        center_start: Point3,
        center_end: Point3,
        radius: Scalar,
        material: Surface,
    ) -> (r: Sphere)
        ensures
            r == (Sphere {
                center: center_start,
                radius,
                material,
                in_motion: true,
                motion_blur_lerp_factor: center_end.spec_sub(center_start),
            }),
    {
        Sphere {
            center: center_start,
            radius,
            material,
            in_motion: true,
            motion_blur_lerp_factor: center_end - center_start,
        }
    }

    /// A sphere at rest.
    pub fn from(center: Point3, radius: Scalar, material: Surface) -> (r: Sphere)
        ensures
            r == (Sphere {
                center,
                radius,
                material,
                in_motion: false,
                motion_blur_lerp_factor: Vec3::spec_zero(),
            }),
    {
        Sphere { center, radius, material, in_motion: false, motion_blur_lerp_factor: Vec3::zero() }
    }

    /// The radius.
    pub fn radius(self) -> (r: Scalar)
        ensures
            r == self.radius,
    {
        self.radius
    }

    /// The centre at the given time.
    pub fn center(&self, time: Scalar) -> (r: Point3)
        ensures
            r == self.spec_center(time),
    {
        if self.in_motion {
            self.center + time * self.motion_blur_lerp_factor
        } else {
            self.center
        }
    }
}

/// The near solution is at most the far one.
pub proof fn lemma_roots_ordered(sphere: Sphere, ray: Ray)
    ensures
        sphere.spec_roots(ray) matches Some(roots) ==> roots.near@ <= roots.far@,
{
    broadcast use group_scalar;

    let disc = sphere.spec_discriminant(ray);
    if disc@ >= 0 {
        let a = sphere.spec_a(ray);
        let root = disc.spec_sqrt();
        let minus_b = sphere.spec_half_b(ray).spec_neg();
        lemma_sqrt_range(disc@);
        lemma_magnitude_nonneg(ray.direction);
        let low = fx_sub(minus_b@, root@);
        let high = fx_add(minus_b@, root@);
        lemma_div_monotone(low, high, a@);
        lemma_div_range(low, a@);
        lemma_div_range(high, a@);
    }
}

/// A ray strikes a sphere exactly where the discriminant is not negative and
/// one of the two solutions lies strictly inside the range; the parameter on
/// record is then the smaller of the solutions that the range admits.
pub proof fn lemma_hit_takes_smaller_root(sphere: Sphere, ray: Ray, within: Interval)
    ensures
        sphere.spec_discriminant(ray)@ < 0 ==> sphere.spec_hit(ray, within).is_none(),
        sphere.spec_roots(ray) matches Some(roots) ==> {
            &&& roots.near@ <= roots.far@
            &&& sphere.spec_hit(ray, within).is_some() == (within.spec_surrounds(roots.near)
                || within.spec_surrounds(roots.far))
            &&& sphere.spec_hit(ray, within) matches Some(h) ==> {
                &&& within.spec_surrounds(h.parameter)
                &&& h.parameter == roots.near || h.parameter == roots.far
                &&& within.spec_surrounds(roots.near) ==> h.parameter@ <= roots.near@
                &&& within.spec_surrounds(roots.far) ==> h.parameter@ <= roots.far@
            }
        },
{
    reveal(Sphere::spec_hit);
    lemma_roots_ordered(sphere, ray);
}

/// The normal on record opposes the ray, and the record tells whether the
/// outward normal did so already.
pub proof fn lemma_hit_normal_opposes(sphere: Sphere, ray: Ray, within: Interval)
    ensures
        sphere.spec_hit(ray, within) matches Some(h) ==> {
            &&& ray.direction.spec_dot(h.normal)@ <= 0
            &&& h.ray_faces_outside == (ray.direction.spec_dot(
                sphere.spec_outward_normal(ray, h.point),
            )@ < 0)
        },
{
    broadcast use group_scalar;

    reveal(Sphere::spec_hit);
    match sphere.spec_hit_parameter(ray, within) {
        None => {},
        Some(t) => {
            let point = ray.spec_at(t);
            let shifted = point.spec_sub(sphere.spec_center(ray.time));
            let outward = sphere.spec_outward_normal(ray, point);
            lemma_div_range(shifted.x@, sphere.radius@);
            lemma_div_range(shifted.y@, sphere.radius@);
            lemma_div_range(shifted.z@, sphere.radius@);
            lemma_face_normal_opposes(ray.direction, outward);
        },
    }
}

/// A record of a strike carries the surface of the sphere and a normal that
/// is well formed.
pub proof fn lemma_hit_record(sphere: Sphere, ray: Ray, within: Interval)
    ensures
        sphere.spec_hit(ray, within) matches Some(h) ==> h.material == sphere.material
            && h.normal.wf(),
{
    reveal(Sphere::spec_hit);
    match sphere.spec_hit_parameter(ray, within) {
        None => {},
        Some(t) => {
            let point = ray.spec_at(t);
            let shifted = point.spec_sub(sphere.spec_center(ray.time));
            let outward = sphere.spec_outward_normal(ray, point);
            lemma_results_wf(shifted, shifted, sphere.radius);
            lemma_results_wf(outward, outward, sphere.radius);
        },
    }
}

/// Lowering the upper end of the range to `limit` keeps a strike whose
/// parameter is below `limit` and drops every other.
pub proof fn lemma_hit_narrowed(sphere: Sphere, ray: Ray, within: Interval, limit: Scalar)
    requires
        limit@ <= within.max@,
    ensures
        sphere.spec_hit(ray, Interval { min: within.min, max: limit }) == (match sphere.spec_hit(
            ray,
            within,
        ) {
            Some(h) => if h.parameter@ < limit@ {
                Some(h)
            } else {
                None
            },
            None => None,
        }),
{
    reveal(Sphere::spec_hit);
    lemma_roots_ordered(sphere, ray);
}

impl Traceable for Sphere {
    /// The strike on the sphere, as `Sphere::spec_hit` defines it.
    open spec fn spec_hit(&self, ray: Ray, within: Interval) -> Option<HitRecord> {
        Sphere::spec_hit(*self, ray, within)
    }

    /// Solves `a t^2 + 2 b t + c = 0` for the strike of `ray` on the sphere.
    /// With a negative discriminant there is none. Else the near solution is
    /// taken where it lies strictly inside `ray_parameter`, else the far one
    /// where that does; the record then gets the point, the parameter, the
    /// normal turned against the ray, and the surface of the sphere.
    fn hit(&self, ray: &Ray, ray_parameter: Interval, record: &mut HitRecord) -> (struck: bool)
    {
        proof {
            reveal(Sphere::spec_hit);
            lemma_hit_normal_opposes(*self, *ray, ray_parameter);
        }
        let center: Point3 = self.center(ray.time());
        let origin_vector: Vec3 = ray.origin() - center;
        let a: Scalar = ray.direction().magnitude();
        let half_b: Scalar = dot(&origin_vector, &ray.direction());
        let c: Scalar = origin_vector.dot(&origin_vector) - self.radius * self.radius;

        let discriminant: Scalar = half_b * half_b - a * c;
        if discriminant.lt(Scalar::zero()) {
            return false;
        }
        let discriminant_root: Scalar = discriminant.sqrt();

        let mut root: Scalar = (half_b.neg() - discriminant_root) / a;
        if !ray_parameter.surrounds(root) {
            root = (half_b.neg() + discriminant_root) / a;
            if !ray_parameter.surrounds(root) {
                return false;
            }
        }
        record.parameter = root;
        record.point = ray.at(root);
        let outward_normal: Vec3 = (record.point - center) / self.radius;
        record.set_normal_face(ray, &outward_normal);
        record.material = self.material;
        true
    }
}

} // verus!
