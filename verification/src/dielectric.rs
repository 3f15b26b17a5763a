//! The refractive material.

use crate::color::{is_fraction, spec_white, white, Color};
use crate::material::Material;
use crate::ray::Ray;
use crate::rt_math::random_number;
use crate::scalar::{
    fx_add, fx_div, fx_mul, fx_sub, group_scalar, lemma_div_fraction, lemma_mul_fraction, mag, scale,
    Scalar,
};
use crate::traceable::HitRecord;
use crate::vector::{dot, lemma_results_wf, Vec3};
use core::ops::Neg;
use vstd::prelude::*;

verus! {

/// A clear surface such as glass, which reflects or refracts.
#[derive(Clone, Copy, Debug)]
pub struct Dielectric {
    pub index_of_refraction: Scalar,
}

/// Schlick's estimate of the share of light that a clear surface reflects:
/// `r0 + (1 - r0) (1 - cos)^5` with `r0 = ((1 - ratio) / (1 + ratio))^2`.
pub open spec fn spec_reflectance(cos_theta: Scalar, refraction_ratio: Scalar) -> Scalar {
    let one = Scalar::spec_one();
    let q = one.spec_sub(refraction_ratio).spec_div(one.spec_add(refraction_ratio));
    let r0 = q.spec_mul(q);
    let k = one.spec_sub(cos_theta);
    let k2 = k.spec_mul(k);
    let k5 = k2.spec_mul(k2).spec_mul(k);
    r0.spec_add(one.spec_sub(r0).spec_mul(k5))
}

/// Schlick's estimate of the share of light that a clear surface reflects,
/// from the cosine of the angle of incidence and the ratio of the refractive
/// indices.
pub fn reflectance(cos_theta: Scalar, refraction_ratio: Scalar) -> (r: Scalar)
    ensures
        r == spec_reflectance(cos_theta, refraction_ratio),
        0 <= cos_theta@ <= scale() && 0 < refraction_ratio@ ==> 0 <= r@ <= scale(),
{
    proof {
        if 0 <= cos_theta@ <= scale() && 0 < refraction_ratio@ {
            lemma_reflectance_is_fraction(cos_theta, refraction_ratio);
        }
    }
    let one: Scalar = Scalar::one();
    let q: Scalar = (one - refraction_ratio) / (one + refraction_ratio);
    let r0: Scalar = q * q;
    let k: Scalar = one - cos_theta;
    let k2: Scalar = k * k;
    let k5: Scalar = k2 * k2 * k;
    r0 + (one - r0) * k5
}

/// The estimated share of reflected light is a share: it lies in `[0, 1]`
/// for every cosine in `[0, 1]` and every positive ratio of refractive
/// indices.
pub proof fn lemma_reflectance_is_fraction(cos_theta: Scalar, refraction_ratio: Scalar)
    requires
        0 <= cos_theta@ <= scale(),
        0 < refraction_ratio@,
    ensures
        0 <= spec_reflectance(cos_theta, refraction_ratio)@ <= scale(),
{
    broadcast use group_scalar;

    let one = scale();
    let ratio = refraction_ratio@;
    let above = fx_sub(one, ratio);
    let below = fx_add(one, ratio);
    assert(mag(above) <= below);
    lemma_div_fraction(above, below);
    let q = fx_div(above, below);
    lemma_mul_fraction(mag(q), mag(q));
    let r0 = fx_mul(q, q);
    assert(r0 == fx_mul(mag(q), mag(q))) by {
        assert(mag(mag(q)) == mag(q));
    }
    let k = fx_sub(one, cos_theta@);
    lemma_mul_fraction(k, k);
    let k2 = fx_mul(k, k);
    lemma_mul_fraction(k2, k2);
    let k4 = fx_mul(k2, k2);
    lemma_mul_fraction(k4, k);
    let k5 = fx_mul(k4, k);
    lemma_mul_fraction(fx_sub(one, r0), k5);
}

impl Dielectric {
    /// The ratio of the refractive indices that a ray meets: `1 / index`
    /// on the way in, the index itself on the way out.
    pub open spec fn spec_ratio(self, record: HitRecord) -> Scalar {
        if record.ray_faces_outside {
            Scalar::spec_one().spec_div(self.index_of_refraction)
        } else {
            self.index_of_refraction
        }
    }

    /// The cosine of the angle between the incoming ray and the normal,
    /// limited to one.
    pub open spec fn spec_cos_theta(ray_in: Ray, record: HitRecord) -> Scalar {
        ray_in.direction.spec_normalize().spec_neg().spec_dot(record.normal).spec_min(
            Scalar::spec_one(),
        )
    }

    /// The sine of that angle: `sqrt(1 - cos^2)`.
    pub open spec fn spec_sin_theta(ray_in: Ray, record: HitRecord) -> Scalar {
        let c = Dielectric::spec_cos_theta(ray_in, record);
        Scalar::spec_one().spec_sub(c.spec_mul(c)).spec_sqrt()
    }

    /// Whether the ray is reflected, given the random number `draw`: where
    /// Snell's law has no solution, or where the estimated share of
    /// reflected light exceeds `draw`.
    pub open spec fn spec_reflects(self, ray_in: Ray, record: HitRecord, draw: Scalar) -> bool {
        let ratio = self.spec_ratio(record);
        ratio.spec_mul(Dielectric::spec_sin_theta(ray_in, record))@ > scale() || spec_reflectance(
            Dielectric::spec_cos_theta(ray_in, record),
            ratio,
        )@ > draw@
    }

    /// The direction in which the ray leaves, given the random number `draw`.
    pub open spec fn spec_direction(self, ray_in: Ray, record: HitRecord, draw: Scalar) -> Vec3 {
        let unit = ray_in.direction.spec_normalize();
        if self.spec_reflects(ray_in, record, draw) {
            Vec3::spec_reflect(unit, record.normal)
        } else {
            Vec3::spec_refract(unit, record.normal, self.spec_ratio(record))
        }
    }

    /// The ray that leaves the surface, given the random number `draw`.
    pub open spec fn spec_bounce(self, ray_in: Ray, record: HitRecord, draw: Scalar) -> Ray {
        Ray {
            origin: record.point,
            direction: self.spec_direction(ray_in, record, draw),
            time: ray_in.time,
        }
    }

    /// `scattered` is what the surface makes of `ray_in` for one of the
    /// numbers that `random_number` may return.
    pub open spec fn is_scattering(self, ray_in: Ray, record: HitRecord, scattered: Ray) -> bool {
        exists|draw: Scalar|
            0 <= draw@ < scale() && scattered == #[trigger] self.spec_bounce(ray_in, record, draw)
    }

    /// A clear surface with refractive index zero.
    pub fn new() -> (r: Dielectric)
        ensures
            r.index_of_refraction == Scalar::spec_zero(),
    {
        Dielectric { index_of_refraction: Scalar::zero() }
    }

    /// A clear surface with the given refractive index.
    pub fn from(index_of_refraction: Scalar) -> (r: Dielectric)
        ensures
            r.index_of_refraction == index_of_refraction,
    {
        Dielectric { index_of_refraction }
    }

    /// The ray that leaves the surface, given the random number `draw` that
    /// decides between reflection and refraction.
    pub fn bounce(&self, ray_in: &Ray, record: &HitRecord, draw: Scalar) -> (scattered: Ray)
        ensures
            scattered == self.spec_bounce(*ray_in, *record, draw),
    {
        let refraction_ratio: Scalar = if record.ray_faces_outside {
            Scalar::one() / self.index_of_refraction
        } else {
            self.index_of_refraction
        };
        let ray_in_unit_direction: Vec3 = ray_in.direction.normalize();
        let cos_theta: Scalar = dot(&ray_in_unit_direction.neg(), &record.normal).min(
            Scalar::one(),
        );
        let sin_theta: Scalar = (Scalar::one() - cos_theta * cos_theta).sqrt();

        let not_refractable: bool = (refraction_ratio * sin_theta).gt(Scalar::one());
        let direction: Vec3 = if not_refractable || reflectance(cos_theta, refraction_ratio).gt(
            draw,
        ) {
            Vec3::reflect(&ray_in_unit_direction, &record.normal)
        } else {
            Vec3::refract(&ray_in_unit_direction, &record.normal, refraction_ratio)
        };
        Ray::from(record.point, direction, ray_in.time)
    }
}

/// A clear surface sends light on in a well-formed direction.
pub proof fn lemma_dielectric_direction_wf(
    material: Dielectric,
    ray_in: Ray,
    record: HitRecord,
    scattered: Ray,
)
    requires
        material.is_scattering(ray_in, record, scattered),
    ensures
        scattered.direction.wf(),
{
    let draw = choose|draw: Scalar|
        0 <= draw@ < scale() && scattered == #[trigger] material.spec_bounce(
            ray_in,
            record,
            draw,
        );
    let unit = ray_in.direction.spec_normalize();
    let n = record.normal;
    let ratio = material.spec_ratio(record);
    if material.spec_reflects(ray_in, record, draw) {
        lemma_results_wf(
            unit,
            n.spec_scale(Scalar::spec_from_int(2).spec_mul(unit.spec_dot(n))),
            ratio,
        );
    } else {
        let cos_theta = unit.spec_neg().spec_dot(n).spec_min(Scalar::spec_one());
        let across = unit.spec_add(n.spec_scale(cos_theta)).spec_scale(ratio);
        let along = n.spec_scale(
            Scalar::spec_one().spec_sub(across.spec_magnitude()).spec_abs().spec_sqrt().spec_neg(),
        );
        lemma_results_wf(across, along, ratio);
    }
}

impl Material for Dielectric {
    /// White: a clear surface absorbs nothing.
    open spec fn spec_attenuation(&self) -> Color {
        spec_white()
    }

    /// Always scatters, and absorbs nothing: the ray is reflected where it
    /// cannot be refracted, and else at random, the more often the more
    /// light the surface reflects at that angle.
    fn scatter(
        &self,
        ray_in: &Ray,
        record: &HitRecord,
        attenuation: &mut Color,
        scattered: &mut Ray,
    ) -> (scatters: bool)
        ensures
            scatters,
            self.is_scattering(*ray_in, *record, *final(scattered)),
            is_fraction(*final(attenuation)),
    {
        *attenuation = white();
        let draw: Scalar = random_number();
        *scattered = self.bounce(ray_in, record, draw);
        true
    }
}

} // verus!
