//! The reflective material.

use crate::interval::Interval;
use crate::color::{is_fraction, Color};
use crate::material::Material;
use crate::ray::Ray;
use crate::scalar::Scalar;
use crate::traceable::HitRecord;
use crate::vector::{dot, lemma_results_wf, Vec3};
use vstd::prelude::*;

verus! {

/// A mirror-like surface. The reflection is blurred by `fuzz`, which lies
/// in `[0, 1]`.
#[derive(Clone, Copy, Debug)]
pub struct Metal {
    pub albedo: Color,
    pub fuzz: Scalar,
}

impl Metal {
    /// The fuzz that a surface is built with: `fuzz` limited to `[0, 1]`.
    pub open spec fn spec_limited_fuzz(fuzz: Scalar) -> Scalar {
        (Interval { min: Scalar::spec_zero(), max: Scalar::spec_one() }).spec_clamp(fuzz)
    }

    /// The direction in which the surface sends light on, given the random
    /// direction `unit`: the mirror image of the incoming direction, made a
    /// unit vector, plus `fuzz * unit`.
    pub open spec fn spec_direction(self, ray_in: Ray, record: HitRecord, unit: Vec3) -> Vec3 {
        Vec3::spec_reflect(ray_in.direction.spec_normalize(), record.normal).spec_add(
            unit.spec_scale(self.fuzz),
        )
    }

    /// The ray that leaves the surface, given the random direction `unit`.
    pub open spec fn spec_bounce(self, ray_in: Ray, record: HitRecord, unit: Vec3) -> Ray {
        Ray {
            origin: record.point,
            direction: self.spec_direction(ray_in, record, unit),
            time: ray_in.time,
        }
    }

    /// Whether a ray that leaves in `direction` stays on the side of the
    /// surface that it came from.
    pub open spec fn spec_leaves(record: HitRecord, direction: Vec3) -> bool {
        direction.spec_dot(record.normal)@ > 0
    }

    /// `scattered` and `scatters` are what the surface makes of `ray_in` for
    /// one of the directions that `random_unit_sphere_vector` may return.
    pub open spec fn is_scattering(
        self,
        ray_in: Ray,
        record: HitRecord,
        scatters: bool,
        scattered: Ray,
    ) -> bool {
        exists|unit: Vec3| #[trigger]
            unit.is_unit_sample() && scattered == self.spec_bounce(ray_in, record, unit)
                && scatters == Metal::spec_leaves(record, scattered.direction)
    }

    /// A perfect mirror that passes on no light.
    pub fn new() -> (r: Metal)
        ensures
            r.albedo == Vec3::spec_zero(),
            r.fuzz == Scalar::spec_zero(),
    {
        Metal { albedo: Vec3::zero(), fuzz: Scalar::zero() }
    }

    /// A reflective surface of the given colour. `fuzz` is limited to
    /// `[0, 1]`.
    pub fn from(albedo: Color, fuzz: Scalar) -> (r: Metal)
        ensures
            r.albedo == albedo,
            r.fuzz == Metal::spec_limited_fuzz(fuzz),
            0 <= r.fuzz@ <= crate::scalar::scale(),
    {
        Metal { albedo, fuzz: Interval::new(Scalar::zero(), Scalar::one()).clamp(fuzz) }
    }

    /// The ray that leaves the surface, given the random direction `unit`,
    /// and whether it stays on the side that `ray_in` came from.
    pub fn bounce(&self, ray_in: &Ray, record: &HitRecord, unit: Vec3) -> (r: (bool, Ray))
        ensures
            r.1 == self.spec_bounce(*ray_in, *record, unit),
            r.0 == Metal::spec_leaves(*record, r.1.direction),
    {
        let reflected_vector: Vec3 = Vec3::reflect(&ray_in.direction.normalize(), &record.normal);
        let scattered: Ray = Ray::from(
            record.point,
            reflected_vector + self.fuzz * unit,
            ray_in.time,
        );
        let leaves: bool = dot(&scattered.direction, &record.normal).gt(Scalar::zero());
        (leaves, scattered)
    }
}

/// A reflective surface sends light on in a well-formed direction.
pub proof fn lemma_metal_direction_wf(
    material: Metal,
    ray_in: Ray,
    record: HitRecord,
    scatters: bool,
    scattered: Ray,
)
    requires
        material.is_scattering(ray_in, record, scatters, scattered),
    ensures
        scattered.direction.wf(),
{
    let unit = choose|unit: Vec3| #[trigger]
        unit.is_unit_sample() && scattered == material.spec_bounce(ray_in, record, unit)
            && scatters == Metal::spec_leaves(record, scattered.direction);
    lemma_results_wf(
        Vec3::spec_reflect(ray_in.direction.spec_normalize(), record.normal),
        unit.spec_scale(material.fuzz),
        material.fuzz,
    );
}

impl Material for Metal {
    /// The albedo.
    open spec fn spec_attenuation(&self) -> Color {
        self.albedo
    }

    /// Reflects the ray at the surface and blurs the reflection by a random
    /// direction scaled with the fuzz; the albedo is the attenuation. No
    /// light leaves where the blurred reflection points into the surface.
    fn scatter(
        &self,
        ray_in: &Ray,
        record: &HitRecord,
        attenuation: &mut Color,
        scattered_ray: &mut Ray,
    ) -> (scatters: bool)
        ensures
            self.is_scattering(*ray_in, *record, scatters, *final(scattered_ray)),
            is_fraction(self.albedo) ==> is_fraction(*final(attenuation)),
    {
        let unit: Vec3 = Vec3::random_unit_sphere_vector();
        let (leaves, scattered) = self.bounce(ray_in, record, unit);
        *scattered_ray = scattered;
        *attenuation = self.albedo;
        leaves
    }
}

} // verus!
