//! The matte material.

use crate::color::{is_fraction, Color};
use crate::material::Material;
use crate::ray::Ray;
use crate::traceable::HitRecord;
use crate::vector::{lemma_results_wf, Vec3};
use vstd::prelude::*;

verus! {

/// A matte surface that scatters light in all directions.
#[derive(Clone, Copy, Debug)]
pub struct Lambertian {
    pub albedo: Color,
}

impl Lambertian {
    /// The direction in which the surface sends light on, given the random
    /// direction `unit`: the normal plus `unit`, or the normal alone where
    /// that sum all but vanishes.
    pub open spec fn spec_direction(record: HitRecord, unit: Vec3) -> Vec3 {
        let sum = record.normal.spec_add(unit);
        if sum.spec_approx_zero() {
            record.normal
        } else {
            sum
        }
    }

    /// The ray that leaves the surface, given the random direction `unit`.
    pub open spec fn spec_bounce(self, ray_in: Ray, record: HitRecord, unit: Vec3) -> Ray {
        Ray {
            origin: record.point,
            direction: Lambertian::spec_direction(record, unit),
            time: ray_in.time,
        }
    }

    /// `scattered` is what the surface makes of `ray_in` for one of the
    /// directions that `random_unit_sphere_vector` may return.
    pub open spec fn is_scattering(self, ray_in: Ray, record: HitRecord, scattered: Ray) -> bool {
        exists|unit: Vec3| #[trigger]
            unit.is_unit_sample() && scattered == self.spec_bounce(ray_in, record, unit)
    }

    /// A matte surface that passes on no light.
    pub fn new() -> (r: Lambertian)
        ensures
            r.albedo == Vec3::spec_zero(),
    {
        Lambertian { albedo: Vec3::zero() }
    }

    /// A matte surface of the given colour.
    pub fn from(color: Color) -> (r: Lambertian)
        ensures
            r.albedo == color,
    {
        Lambertian { albedo: color }
    }

    /// The ray that leaves the surface, given the random direction `unit`.
    pub fn bounce(&self, ray_in: &Ray, record: &HitRecord, unit: Vec3) -> (scattered: Ray)
        ensures
            scattered == self.spec_bounce(*ray_in, *record, unit),
    {
        let mut scatter_direction: Vec3 = record.normal + unit;
        if scatter_direction.approx_zero() {
            scatter_direction = record.normal;
        }
        Ray::from(record.point, scatter_direction, ray_in.time)
    }
}

/// A matte surface with a well-formed normal sends light on in a
/// well-formed direction.
pub proof fn lemma_lambertian_direction_wf(
    material: Lambertian,
    ray_in: Ray,
    record: HitRecord,
    scattered: Ray,
)
    requires
        record.normal.wf(),
        material.is_scattering(ray_in, record, scattered),
    ensures
        scattered.direction.wf(),
{
    let unit = choose|unit: Vec3| #[trigger]
        unit.is_unit_sample() && scattered == material.spec_bounce(ray_in, record, unit);
    lemma_results_wf(record.normal, unit, unit.x);
}

impl Material for Lambertian {
    /// The albedo.
    open spec fn spec_attenuation(&self) -> Color {
        self.albedo
    }

    /// Always scatters: in the direction of the normal plus a random
    /// direction, with the albedo as attenuation.
    fn scatter(
        &self,
        ray_in: &Ray,
        record: &HitRecord,
        attenuation: &mut Color,
        scattered_ray: &mut Ray,
    ) -> (scatters: bool)
        ensures
            scatters,
            self.is_scattering(*ray_in, *record, *final(scattered_ray)),
            is_fraction(self.albedo) ==> is_fraction(*final(attenuation)),
    {
        let unit: Vec3 = Vec3::random_unit_sphere_vector();
        *scattered_ray = self.bounce(ray_in, record, unit);
        *attenuation = self.albedo;
        true
    }
}

} // verus!
