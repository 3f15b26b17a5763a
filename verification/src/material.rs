//! Surfaces: how a ray that strikes an object is sent on.

use crate::color::{is_fraction, Color};
use crate::dielectric::Dielectric;
use crate::lambert::Lambertian;
use crate::metal::Metal;
use crate::ray::Ray;
use crate::traceable::HitRecord;
use vstd::prelude::*;

verus! {

/// A material decides how light leaves a surface that a ray has struck.
pub trait Material {
    /// The share of each colour channel that the surface passes on.
    spec fn spec_attenuation(&self) -> Color;

    /// Sends the ray on from the point on record. `attenuation` gets the share
    /// of each channel that the surface passes on, and `scattered` the ray
    /// that leaves the surface, cast at the time of `ray_in`. The result tells
    /// whether any light leaves at all.
    fn scatter(
        &self,
        ray_in: &Ray,
        record: &HitRecord,
        attenuation: &mut Color,
        scattered: &mut Ray,
    ) -> (scatters: bool)
        ensures
            *final(attenuation) == self.spec_attenuation(),
            final(scattered).origin == record.point,
            final(scattered).time == ray_in.time,
    ;
}

/// The surface of an object: one of the three kinds of material.
#[derive(Clone, Copy, Debug)]
pub enum Surface {
    Diffuse(Lambertian),
    Reflective(Metal),
    Refractive(Dielectric),
}

impl Surface {
    /// `scatters` and `scattered` are an outcome of `scatter` for the
    /// material that the surface is made of. Matte and clear surfaces always
    /// pass the ray on.
    pub open spec fn is_scattering(
        self,
        ray_in: Ray,
        record: HitRecord,
        scatters: bool,
        scattered: Ray,
    ) -> bool {
        match self {
            Surface::Diffuse(m) => scatters && m.is_scattering(ray_in, record, scattered),
            Surface::Reflective(m) => m.is_scattering(ray_in, record, scatters, scattered),
            Surface::Refractive(m) => scatters && m.is_scattering(ray_in, record, scattered),
        }
    }
}

impl Material for Surface {
    /// The attenuation of the material that the surface is made of.
    open spec fn spec_attenuation(&self) -> Color {
        match *self {
            Surface::Diffuse(m) => m.spec_attenuation(),
            Surface::Reflective(m) => m.spec_attenuation(),
            Surface::Refractive(m) => m.spec_attenuation(),
        }
    }

    /// Scatters as the material that the surface is made of does.
    fn scatter(
        &self,
        ray_in: &Ray,
        record: &HitRecord,
        attenuation: &mut Color,
        scattered: &mut Ray,
    ) -> (scatters: bool)
        ensures
            self.is_scattering(*ray_in, *record, scatters, *final(scattered)),
            is_fraction(self.spec_attenuation()) ==> is_fraction(*final(attenuation)),
    {
        match self {
            Surface::Diffuse(m) => m.scatter(ray_in, record, attenuation, scattered),
            Surface::Reflective(m) => m.scatter(ray_in, record, attenuation, scattered),
            Surface::Refractive(m) => m.scatter(ray_in, record, attenuation, scattered),
        }
    }
}

/// No material passes on more light than it receives: with an albedo whose
/// channels lie in `[0, 1]`, so do the channels of the attenuation.
pub proof fn lemma_attenuation_is_fraction(surface: Surface)
    requires
        match surface {
            Surface::Diffuse(m) => is_fraction(m.albedo),
            Surface::Reflective(m) => is_fraction(m.albedo),
            Surface::Refractive(_) => true,
        },
    ensures
        is_fraction(surface.spec_attenuation()),
{
    broadcast use crate::scalar::group_scalar;

}

} // verus!
