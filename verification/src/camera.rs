//! The camera: from its settings to the rays through each pixel, the colour
//! that each ray brings back, and the finished image.

use crate::color::{
    encode_ppm, is_fraction, quantize, spec_body, spec_header, spec_quantize, spec_white, white,
    Color, Rgb,
};
use crate::dielectric::lemma_dielectric_direction_wf;
use crate::interval::Interval;
use crate::lambert::lemma_lambertian_direction_wf;
use crate::material::{Material, Surface};
use crate::metal::lemma_metal_direction_wf;
use crate::ray::Ray;
use crate::rt_math::{degrees_to_radians, random_number, spec_degrees_to_radians, spec_tan, tan};
use crate::scalar::{fx_add, fx_mul, group_scalar, lemma_mul_fraction, scale, Scalar};
use crate::sphere::{lemma_hit_record, Sphere};
use crate::traceable::{lemma_nearest_is_minimal, spec_nearest, HitRecord, Traceable, Traceables};
use crate::vector::{lemma_normalize_bounded, Point3, Vec3};
use core::ops::Neg;
use vstd::prelude::*;

verus! {

/// A camera with a thin lens. The public settings describe the picture to
/// take; `initialize` derives the rest from them.
#[derive(Clone, Copy, Debug)]
pub struct Camera {
    /// Width of the image over its height.
    pub aspect_ratio: Scalar,
    /// Width and height of the image in pixels, once initialized.
    pub image_dimensions: (usize, usize),
    /// Width of the image in pixels.
    pub image_width: usize,
    /// Number of rays cast through each pixel.
    pub pixel_samples: usize,
    /// Largest number of times that a ray is followed from surface to surface.
    pub max_depth: usize,
    /// Vertical field of view in degrees.
    pub vfov: Scalar,
    /// Angle in degrees of the cone of rays through each pixel.
    pub defocus_angle: Scalar,
    /// Distance from the camera to the plane in perfect focus.
    pub focus_distance: Scalar,
    /// Where the camera stands.
    pub camera_origin: Point3,
    /// What the camera looks at.
    pub camera_target: Point3,
    /// The direction that is up in the image.
    pub up_vector: Vec3,
    /// Height of the image in pixels.
    pub image_height: usize,
    /// Centre of the lens.
    pub center: Point3,
    /// Centre of the pixel in the upper left corner.
    pub pixel_origin: Point3,
    /// Step from a pixel to its right neighbour.
    pub pixel_delta_u: Vec3,
    /// Step from a pixel to the one below it.
    pub pixel_delta_v: Vec3,
    /// Horizontal radius of the lens.
    pub defocus_disc_u: Vec3,
    /// Vertical radius of the lens.
    pub defocus_disc_v: Vec3,
    /// Unit vector to the right of the camera.
    pub u: Vec3,
    /// Unit vector upward of the camera.
    pub v: Vec3,
    /// Unit vector against the viewing direction.
    pub w: Vec3,
}

/// The random numbers that pick one ray through a pixel.
pub struct PixelSample {
    /// Horizontal position within the pixel, in `[0, 1)`.
    pub across: Scalar,
    /// Vertical position within the pixel, in `[0, 1)`.
    pub down: Scalar,
    /// Point of the unit disc that picks the point of the lens.
    pub lens: Vec3,
    /// Moment within the exposure, in `[0, 1)`.
    pub time: Scalar,
}

impl PixelSample {
    /// The numbers are such as the random draws give.
    pub open spec fn is_drawn(self) -> bool {
        &&& 0 <= self.across@ < scale()
        &&& 0 <= self.down@ < scale()
        &&& self.lens.is_disc_sample()
        &&& 0 <= self.time@ < scale()
    }
}

/// The ray parameters at which a strike counts: from `0.001`, which keeps a
/// ray from striking the surface that it leaves, to infinity, both excluded.
pub open spec fn spec_visible_range() -> Interval {
    Interval { min: Scalar::spec_from_ratio(1, 1000), max: Scalar::spec_infinity() }
}

/// The colour without any light.
pub open spec fn spec_black() -> Color {
    Vec3::spec_zero()
}

/// The colour of the sky at the zenith.
pub open spec fn spec_sky_blue() -> Color {
    Vec3 {
        x: Scalar::spec_from_ratio(1, 2),
        y: Scalar::spec_from_ratio(7, 10),
        z: Scalar::spec_one(),
    }
}

/// How far the sky has turned from white to blue in the direction `d`:
/// `(y + 1) / 2` for the height `y` of the unit vector along `d`.
pub open spec fn spec_sky_blend(d: Vec3) -> Scalar {
    Scalar::spec_from_ratio(1, 2).spec_mul(d.spec_normalize().y.spec_add(Scalar::spec_one()))
}

/// The colour of the sky that a ray sees: white toward the nadir, blue
/// toward the zenith, and blended in proportion between them.
pub open spec fn spec_sky(ray: Ray) -> Color {
    let blend = spec_sky_blend(ray.direction);
    spec_white().spec_scale(Scalar::spec_one().spec_sub(blend)).spec_add(
        spec_sky_blue().spec_scale(blend),
    )
}

/// What happened at a surface: whether it passed the ray on, the ray that
/// left it, and the colour which that ray brought back.
pub struct Bounce {
    pub passes: bool,
    pub scattered: Ray,
    pub inner: Color,
}

/// `bounce` is an outcome of `scatter` at the surface on `record`.
pub open spec fn is_outcome(ray: Ray, record: HitRecord, bounce: Bounce) -> bool {
    record.material.is_scattering(ray, record, bounce.passes, bounce.scattered)
}

/// `color` is a colour that a ray may bring back from the scene when it is
/// followed over at most `depth` surfaces, and `scatters` is the number of
/// surfaces that passed it on.
///
/// With no bounce left the colour is black. A ray that strikes nothing
/// brings back the sky. A ray that strikes a surface is black where the
/// surface passes nothing on; else the scattered ray brings back a colour
/// with one bounce less, and the ray brings back that colour, attenuated
/// channel by channel.
pub open spec fn is_path(
    objects: Seq<Sphere>,
    ray: Ray,
    depth: nat,
    color: Color,
    scatters: nat,
) -> bool
    decreases depth,
{
    if depth == 0 {
        color == spec_black() && scatters == 0
    } else {
        match spec_nearest(objects, ray, spec_visible_range()) {
            None => color == spec_sky(ray) && scatters == 0,
            Some(record) => exists|bounce: Bounce|
                {
                    &&& #[trigger] is_outcome(ray, record, bounce)
                    &&& if bounce.passes {
                        &&& scatters > 0
                        &&& is_path(
                            objects,
                            bounce.scattered,
                            (depth - 1) as nat,
                            bounce.inner,
                            (scatters - 1) as nat,
                        )
                        &&& color == record.material.spec_attenuation().spec_mul(bounce.inner)
                    } else {
                        color == spec_black() && scatters == 0
                    }
                },
        }
    }
}

/// A ray is never followed over more surfaces than its depth allows, and
/// with depth zero it is black.
pub proof fn lemma_path_bounded(
    objects: Seq<Sphere>,
    ray: Ray,
    depth: nat,
    color: Color,
    scatters: nat,
)
    requires
        is_path(objects, ray, depth, color, scatters),
    ensures
        scatters <= depth,
        depth == 0 ==> color == spec_black(),
    decreases depth,
{
    if depth > 0 {
        match spec_nearest(objects, ray, spec_visible_range()) {
            None => {},
            Some(record) => {
                let bounce = choose|bounce: Bounce|
                    {
                        &&& #[trigger] is_outcome(ray, record, bounce)
                        &&& if bounce.passes {
                            &&& scatters > 0
                            &&& is_path(
                                objects,
                                bounce.scattered,
                                (depth - 1) as nat,
                                bounce.inner,
                                (scatters - 1) as nat,
                            )
                            &&& color == record.material.spec_attenuation().spec_mul(
                                bounce.inner,
                            )
                        } else {
                            color == spec_black() && scatters == 0
                        }
                    };
                if bounce.passes {
                    lemma_path_bounded(
                        objects,
                        bounce.scattered,
                        (depth - 1) as nat,
                        bounce.inner,
                        (scatters - 1) as nat,
                    );
                }
            },
        }
    }
}

/// In a scene without objects every ray that is followed at all brings back
/// exactly the colour of the sky in its direction.
pub proof fn lemma_empty_scene_is_sky(ray: Ray, depth: nat, color: Color, scatters: nat)
    requires
        depth > 0,
        is_path(Seq::<Sphere>::empty(), ray, depth, color, scatters),
    ensures
        color == spec_sky(ray),
        scatters == 0,
{
}

/// No surface of the scene passes on more light than it receives.
pub open spec fn is_lossy(objects: Seq<Sphere>) -> bool {
    forall|i: int|
        0 <= i < objects.len() ==> is_fraction((#[trigger] objects[i]).material.spec_attenuation())
}

/// Every channel of the sky lies in `[0, 1]`.
pub proof fn lemma_sky_is_fraction(ray: Ray)
    requires
        ray.direction.wf(),
    ensures
        is_fraction(spec_sky(ray)),
{
    broadcast use group_scalar;

    lemma_normalize_bounded(ray.direction);
    let one = scale();
    let height = ray.direction.spec_normalize().y@;
    let half = Scalar::spec_from_ratio(1, 2)@;
    assert(half == 0x8000_0000) by {
        assert(crate::scalar::fx_div(0x1_0000_0000, 0x2_0000_0000) == 0x8000_0000) by {
            assert(0x1_0000_0000 * 0x1_0000_0000 / 0x2_0000_0000 == 0x8000_0000int);
        }
    }
    assert(Scalar::spec_from_ratio(7, 10)@ == 3006477107) by {
        assert(crate::scalar::fx_div(0x7_0000_0000, 0xa_0000_0000) == 3006477107) by {
            assert(0x7_0000_0000 * 0x1_0000_0000 / 0xa_0000_0000 == 3006477107int);
        }
    }
    let lifted = fx_add(height, one);
    crate::scalar::lemma_mul_commutes(half, lifted);
    lemma_mul_fraction(lifted, half);
    let blend = fx_mul(half, lifted);
    assert(spec_sky_blend(ray.direction)@ == blend);
    assert(0 <= blend <= one);
    let rest = one - blend;
    lemma_mul_fraction(rest, one);
    lemma_mul_fraction(blend, half);
    lemma_mul_fraction(blend, 3006477107);
    lemma_mul_fraction(blend, one);
    crate::scalar::lemma_mul_commutes(rest, one);
    crate::scalar::lemma_mul_commutes(blend, half);
    crate::scalar::lemma_mul_commutes(blend, 3006477107);
    crate::scalar::lemma_mul_commutes(blend, one);
}

/// The ray that a surface with a well-formed normal sends on has a
/// well-formed direction.
pub proof fn lemma_outcome_wf(ray: Ray, record: HitRecord, bounce: Bounce)
    requires
        record.normal.wf(),
        is_outcome(ray, record, bounce),
    ensures
        bounce.scattered.direction.wf(),
{
    match record.material {
        Surface::Diffuse(m) => lemma_lambertian_direction_wf(m, ray, record, bounce.scattered),
        Surface::Reflective(m) => lemma_metal_direction_wf(
            m,
            ray,
            record,
            bounce.passes,
            bounce.scattered,
        ),
        Surface::Refractive(m) => lemma_dielectric_direction_wf(m, ray, record, bounce.scattered),
    }
}

/// Light is never gained on the way: in a scene whose surfaces pass on at
/// most what they receive, every channel of every colour that a ray brings
/// back lies in `[0, 1]`.
pub proof fn lemma_path_is_fraction(
    objects: Seq<Sphere>,
    ray: Ray,
    depth: nat,
    color: Color,
    scatters: nat,
)
    requires
        is_lossy(objects),
        ray.direction.wf(),
        is_path(objects, ray, depth, color, scatters),
    ensures
        is_fraction(color),
    decreases depth,
{
    broadcast use group_scalar;

    if depth > 0 {
        let within = spec_visible_range();
        match spec_nearest(objects, ray, within) {
            None => {
                lemma_sky_is_fraction(ray);
            },
            Some(record) => {
                lemma_nearest_is_minimal(objects, ray, within);
                let i = choose|i: int|
                    0 <= i < objects.len() && (#[trigger] objects[i]).spec_hit(ray, within) == Some(
                        record,
                    );
                lemma_hit_record(objects[i], ray, within);
                let bounce = choose|bounce: Bounce|
                    {
                        &&& #[trigger] is_outcome(ray, record, bounce)
                        &&& if bounce.passes {
                            &&& scatters > 0
                            &&& is_path(
                                objects,
                                bounce.scattered,
                                (depth - 1) as nat,
                                bounce.inner,
                                (scatters - 1) as nat,
                            )
                            &&& color == record.material.spec_attenuation().spec_mul(
                                bounce.inner,
                            )
                        } else {
                            color == spec_black() && scatters == 0
                        }
                    };
                if bounce.passes {
                    lemma_outcome_wf(ray, record, bounce);
                    lemma_path_is_fraction(
                        objects,
                        bounce.scattered,
                        (depth - 1) as nat,
                        bounce.inner,
                        (scatters - 1) as nat,
                    );
                    let share = record.material.spec_attenuation();
                    lemma_mul_fraction(share.x@, bounce.inner.x@);
                    lemma_mul_fraction(share.y@, bounce.inner.y@);
                    lemma_mul_fraction(share.z@, bounce.inner.z@);
                }
            },
        }
    }
}

/// The colour of the sky that a ray sees.
pub fn sky(ray: &Ray) -> (c: Color)
    ensures
        c == spec_sky(*ray),
{
    let unit_direction: Vec3 = ray.direction.normalize();
    let blend_factor: Scalar = Scalar::from_ratio(1, 2) * (unit_direction.y + Scalar::one());
    let blue: Color = Vec3 {
        x: Scalar::from_ratio(1, 2),
        y: Scalar::from_ratio(7, 10),
        z: Scalar::one(),
    };
    (Scalar::one() - blend_factor) * white() + blend_factor * blue
}

/// Follows `ray` through the scene over at most `depth` surfaces. Returns
/// the colour that it brings back and the number of surfaces that passed
/// it on.
pub fn trace(ray: &Ray, depth: usize, world: &Traceables) -> (r: (Color, usize))
    ensures
        is_path(world@, *ray, depth as nat, r.0, r.1 as nat),
        r.1 <= depth,
        depth == 0 ==> r.0 == spec_black(),
    decreases depth,
{
    if depth == 0 {
        return (Vec3::zero(), 0);
    }
    let mut record: HitRecord = HitRecord::new();
    let visible: Interval = Interval::new(Scalar::from_ratio(1, 1000), Scalar::infinity());
    if world.hit(ray, visible, &mut record) {
        let mut scattered_ray: Ray = Ray::new();
        let mut attenuation: Color = Vec3::zero();
        if record.material.scatter(ray, &record, &mut attenuation, &mut scattered_ray) {
            let (inner, scatters) = trace(&scattered_ray, depth - 1, world);
            let color: Color = attenuation * inner;
            proof {
                let bounce = Bounce { passes: true, scattered: scattered_ray, inner };
                assert(is_outcome(*ray, record, bounce));
                assert(is_path(
                    world@,
                    bounce.scattered,
                    (depth - 1) as nat,
                    bounce.inner,
                    ((scatters + 1) - 1) as nat,
                ));
            }
            return (color, scatters + 1);
        }
        proof {
            let bounce = Bounce { passes: false, scattered: scattered_ray, inner: spec_black() };
            assert(is_outcome(*ray, record, bounce));
        }
        return (Vec3::zero(), 0);
    }
    (sky(ray), 0)
}

impl Camera {
    /// The camera that `new` returns.
    pub open spec fn spec_new() -> Camera {
        Camera {
            aspect_ratio: Scalar::spec_one(),
            image_dimensions: (0, 0),
            image_width: 100,
            pixel_samples: 10,
            max_depth: 10,
            vfov: Scalar::spec_from_int(90),
            defocus_angle: Scalar::spec_zero(),
            focus_distance: Scalar::spec_zero(),
            camera_origin: Vec3 {
                x: Scalar::spec_zero(),
                y: Scalar::spec_zero(),
                z: Scalar::spec_from_int(-1),
            },
            camera_target: Vec3::spec_zero(),
            up_vector: Vec3 {
                x: Scalar::spec_zero(),
                y: Scalar::spec_one(),
                z: Scalar::spec_zero(),
            },
            image_height: 0,
            center: Vec3::spec_zero(),
            pixel_origin: Vec3::spec_zero(),
            pixel_delta_u: Vec3::spec_zero(),
            pixel_delta_v: Vec3::spec_zero(),
            defocus_disc_u: Vec3::spec_zero(),
            defocus_disc_v: Vec3::spec_zero(),
            u: Vec3::spec_zero(),
            v: Vec3::spec_zero(),
            w: Vec3::spec_zero(),
        }
    }

    /// The height of the image in pixels: the width over the aspect ratio,
    /// rounded down, and at least one.
    pub open spec fn spec_image_height(self) -> int {
        let h = Scalar::spec_from_int(self.image_width as int).spec_div(
            self.aspect_ratio,
        ).spec_trunc();
        if h < 1 {
            1
        } else {
            h
        }
    }

    /// Height of the viewport in the plane of focus:
    /// `2 tan(vfov / 2) focus_distance`.
    pub open spec fn spec_viewport_height(self) -> Scalar {
        Scalar::spec_from_int(2).spec_mul(
            spec_tan(spec_degrees_to_radians(self.vfov).spec_div(Scalar::spec_from_int(2))),
        ).spec_mul(self.focus_distance)
    }

    /// Width of the viewport: its height times the width of the image over
    /// the height of the image.
    pub open spec fn spec_viewport_width(self) -> Scalar {
        self.spec_viewport_height().spec_mul(
            Scalar::spec_from_int(self.image_width as int),
        ).spec_div(Scalar::spec_from_int(self.spec_image_height()))
    }

    /// Unit vector against the viewing direction.
    pub open spec fn spec_w(self) -> Vec3 {
        self.camera_origin.spec_sub(self.camera_target).spec_normalize()
    }

    /// Unit vector to the right of the camera.
    pub open spec fn spec_u(self) -> Vec3 {
        self.up_vector.spec_cross(self.spec_w()).spec_normalize()
    }

    /// Unit vector upward of the camera.
    pub open spec fn spec_v(self) -> Vec3 {
        self.spec_w().spec_cross(self.spec_u())
    }

    /// The upper edge of the viewport, from left to right.
    pub open spec fn spec_viewport_u(self) -> Vec3 {
        self.spec_u().spec_scale(self.spec_viewport_width())
    }

    /// The left edge of the viewport, from top to bottom.
    pub open spec fn spec_viewport_v(self) -> Vec3 {
        self.spec_v().spec_neg().spec_scale(self.spec_viewport_height())
    }

    /// The upper left corner of the viewport.
    pub open spec fn spec_viewport_origin(self) -> Point3 {
        let half = Scalar::spec_from_int(2);
        self.camera_origin.spec_sub(self.spec_w().spec_scale(self.focus_distance)).spec_sub(
            self.spec_viewport_u().spec_shrink(half),
        ).spec_sub(self.spec_viewport_v().spec_shrink(half))
    }

    /// Radius of the lens: `focus_distance tan(defocus_angle / 2)`.
    pub open spec fn spec_defocus_radius(self) -> Scalar {
        self.focus_distance.spec_mul(
            spec_tan(spec_degrees_to_radians(self.defocus_angle.spec_div(Scalar::spec_from_int(2)))),
        )
    }

    /// The camera with everything derived from its settings.
    pub open spec fn spec_initialize(self) -> Camera {
        let height = self.spec_image_height();
        let delta_u = self.spec_viewport_u().spec_shrink(
            Scalar::spec_from_int(self.image_width as int),
        );
        let delta_v = self.spec_viewport_v().spec_shrink(Scalar::spec_from_int(height));
        Camera {
            image_dimensions: (self.image_width, height as usize),
            image_height: height as usize,
            center: self.camera_origin,
            pixel_origin: self.spec_viewport_origin().spec_add(
                delta_u.spec_add(delta_v).spec_scale(Scalar::spec_from_ratio(1, 2)),
            ),
            pixel_delta_u: delta_u,
            pixel_delta_v: delta_v,
            defocus_disc_u: self.spec_u().spec_scale(self.spec_defocus_radius()),
            defocus_disc_v: self.spec_v().spec_scale(self.spec_defocus_radius()),
            u: self.spec_u(),
            v: self.spec_v(),
            w: self.spec_w(),
            ..self
        }
    }

    /// The centre of the pixel in column `i` and row `j`.
    pub open spec fn spec_pixel_center(self, i: int, j: int) -> Point3 {
        self.pixel_origin.spec_add(self.pixel_delta_u.spec_scale(Scalar::spec_from_int(i))).spec_add(
            self.pixel_delta_v.spec_scale(Scalar::spec_from_int(j)),
        )
    }

    /// The offset from the centre of a pixel to the point at `across` and
    /// `down` within it, both counted from its upper left corner.
    pub open spec fn spec_pixel_offset(self, across: Scalar, down: Scalar) -> Vec3 {
        let half = Scalar::spec_from_ratio(-1, 2);
        self.pixel_delta_u.spec_scale(half.spec_add(across)).spec_add(
            self.pixel_delta_v.spec_scale(half.spec_add(down)),
        )
    }

    /// The point of the lens that the point `p` of the unit disc picks.
    pub open spec fn spec_lens_point(self, p: Vec3) -> Point3 {
        self.center.spec_add(self.defocus_disc_u.spec_scale(p.x)).spec_add(
            self.defocus_disc_v.spec_scale(p.y),
        )
    }

    /// The ray through the pixel in column `i` and row `j` that `sample`
    /// picks: from the centre of the lens, or with a positive defocus angle
    /// from the picked point of the lens, to the picked point of the pixel.
    pub open spec fn spec_ray_through(self, i: int, j: int, sample: PixelSample) -> Ray {
        let target = self.spec_pixel_center(i, j).spec_add(
            self.spec_pixel_offset(sample.across, sample.down),
        );
        let origin = if self.defocus_angle@ <= 0 {
            self.center
        } else {
            self.spec_lens_point(sample.lens)
        };
        Ray { origin, direction: target.spec_sub(origin), time: sample.time }
    }

    /// `ray` is one of the rays that `get_ray` may cast through the pixel in
    /// column `i` and row `j`.
    pub open spec fn is_primary_ray(self, i: int, j: int, ray: Ray) -> bool {
        exists|sample: PixelSample| #[trigger]
            sample.is_drawn() && ray == self.spec_ray_through(i, j, sample)
    }

    /// A camera at `(0, 0, -1)` that looks at the origin with a field of
    /// view of 90 degrees and takes a square image of 100 pixels width, with
    /// 10 rays through each pixel that are followed over at most 10 surfaces.
    /// The lens is a point; the focus distance is still to be set.
    pub fn new() -> (r: Camera)
        ensures
            r == Camera::spec_new(),
    {
        Camera {
            aspect_ratio: Scalar::one(),
            image_dimensions: (0, 0),
            image_width: 100,
            pixel_samples: 10,
            max_depth: 10,
            vfov: Scalar::from_int(90),
            defocus_angle: Scalar::zero(),
            focus_distance: Scalar::zero(),
            camera_origin: Vec3 { x: Scalar::zero(), y: Scalar::zero(), z: Scalar::from_int(-1) },
            camera_target: Vec3::zero(),
            up_vector: Vec3 { x: Scalar::zero(), y: Scalar::one(), z: Scalar::zero() },
            image_height: 0,
            center: Vec3::zero(),
            pixel_origin: Vec3::zero(),
            pixel_delta_u: Vec3::zero(),
            pixel_delta_v: Vec3::zero(),
            defocus_disc_u: Vec3::zero(),
            defocus_disc_v: Vec3::zero(),
            u: Vec3::zero(),
            v: Vec3::zero(),
            w: Vec3::zero(),
        }
    }

    /// Derives the size of the image, the frame of the camera, the grid of
    /// pixels in the plane of focus and the lens from the settings.
    pub fn initialize(&mut self)
        ensures
            *final(self) == old(self).spec_initialize(),
            final(self).image_height >= 1,
            final(self).image_width == old(self).image_width,
    {
        let width: Scalar = Scalar::from_usize(self.image_width);
        let rows: u64 = (width / self.aspect_ratio).trunc();
        self.image_height = if rows < 1 {
            1
        } else {
            rows as usize
        };
        self.image_dimensions = (self.image_width, self.image_height);
        let height: Scalar = Scalar::from_usize(self.image_height);
        let two: Scalar = Scalar::from_int(2);

        self.center = self.camera_origin;

        let theta: Scalar = degrees_to_radians(self.vfov);
        let height_component: Scalar = tan(theta / two);
        let viewport_height: Scalar = two * height_component * self.focus_distance;
        let viewport_width: Scalar = viewport_height * width / height;

        self.w = (self.camera_origin - self.camera_target).normalize();
        self.u = self.up_vector.cross(&self.w).normalize();
        self.v = self.w.cross(&self.u);

        let viewport_u_vector: Vec3 = viewport_width * self.u;
        let viewport_v_vector: Vec3 = viewport_height * self.v.neg();

        self.pixel_delta_u = viewport_u_vector / width;
        self.pixel_delta_v = viewport_v_vector / height;

        let viewport_origin: Point3 = self.center - (self.focus_distance * self.w)
            - viewport_u_vector / two - viewport_v_vector / two;
        self.pixel_origin = viewport_origin + Scalar::from_ratio(1, 2) * (self.pixel_delta_u
            + self.pixel_delta_v);

        let defocus_radius: Scalar = self.focus_distance * tan(
            degrees_to_radians(self.defocus_angle / two),
        );
        self.defocus_disc_u = self.u * defocus_radius;
        self.defocus_disc_v = self.v * defocus_radius;
    }

    /// The colour that `ray` brings back from the scene when it is followed
    /// over at most `depth` surfaces.
    pub fn get_ray_color(ray: &Ray, depth: usize, world: &Traceables) -> (color: Color)
        ensures
            exists|scatters: nat| scatters <= depth && #[trigger] is_path(
                world@,
                *ray,
                depth as nat,
                color,
                scatters,
            ),
            depth == 0 ==> color == spec_black(),
            depth > 0 && spec_nearest(world@, *ray, spec_visible_range()).is_none() ==> color
                == spec_sky(*ray),
            is_lossy(world@) ==> is_fraction(color),
    {
        let (color, scatters) = trace(ray, depth, world);
        assert(is_path(world@, *ray, depth as nat, color, scatters as nat));
        proof {
            use_type_invariant(&ray.direction.x);
            use_type_invariant(&ray.direction.y);
            use_type_invariant(&ray.direction.z);
            crate::scalar::lemma_wf(ray.direction.x);
            crate::scalar::lemma_wf(ray.direction.y);
            crate::scalar::lemma_wf(ray.direction.z);
            if is_lossy(world@) {
                lemma_path_is_fraction(world@, *ray, depth as nat, color, scatters as nat);
            }
        }
        color
    }

    /// The offset from the centre of a pixel to the point at `across` and
    /// `down` within it.
    pub fn pixel_offset(&self, across: Scalar, down: Scalar) -> (r: Vec3)
        ensures
            r == self.spec_pixel_offset(across, down),
    {
        let px: Scalar = Scalar::from_ratio(-1, 2) + across;
        let py: Scalar = Scalar::from_ratio(-1, 2) + down;
        (px * self.pixel_delta_u) + (py * self.pixel_delta_v)
    }

    /// A random offset from the centre of a pixel to a point of its square.
    pub fn pixel_sample_square(&self) -> (r: Vec3)
        ensures
            exists|across: Scalar, down: Scalar|
                0 <= across@ < scale() && 0 <= down@ < scale() && r == #[trigger] self.spec_pixel_offset(
                    across,
                    down,
                ),
    {
        let across: Scalar = random_number();
        let down: Scalar = random_number();
        self.pixel_offset(across, down)
    }

    /// The point of the lens that the point `p` of the unit disc picks.
    pub fn lens_point(&self, p: &Vec3) -> (r: Point3)
        ensures
            r == self.spec_lens_point(*p),
    {
        self.center + p.x * self.defocus_disc_u + p.y * self.defocus_disc_v
    }

    /// A random point of the lens.
    pub fn sample_defocus_disc(&self) -> (r: Point3)
        ensures
            exists|p: Vec3| #[trigger] p.is_disc_sample() && r == self.spec_lens_point(p),
    {
        let point: Point3 = Vec3::random_unit_disk_point();
        self.lens_point(&point)
    }

    /// The ray through the pixel in column `i` and row `j` that `sample`
    /// picks.
    pub fn ray_through(&self, i: usize, j: usize, sample: &PixelSample) -> (ray: Ray)
        ensures
            ray == self.spec_ray_through(i as int, j as int, *sample),
    {
        let pixel_center: Point3 = self.pixel_origin + (Scalar::from_usize(i) * self.pixel_delta_u)
            + (Scalar::from_usize(j) * self.pixel_delta_v);
        let pixel_sample: Point3 = pixel_center + self.pixel_offset(sample.across, sample.down);
        let ray_origin: Point3 = if self.defocus_angle.le(Scalar::zero()) {
            self.center
        } else {
            self.lens_point(&sample.lens)
        };
        let ray_direction: Vec3 = pixel_sample - ray_origin;
        Ray::from(ray_origin, ray_direction, sample.time)
    }

    /// A random ray through the pixel in column `i` and row `j`: toward a
    /// random point of the pixel, from a random point of the lens, at a
    /// random moment of the exposure.
    pub fn get_ray(&self, i: usize, j: usize) -> (ray: Ray)
        ensures
            self.is_primary_ray(i as int, j as int, ray),
    {
        let across: Scalar = random_number();
        let down: Scalar = random_number();
        let lens: Vec3 = if self.defocus_angle.le(Scalar::zero()) {
            Vec3::zero()
        } else {
            Vec3::random_unit_disk_point()
        };
        let time: Scalar = random_number();
        let sample: PixelSample = PixelSample { across, down, lens, time };
        assert(sample.is_drawn());
        self.ray_through(i, j, &sample)
    }
}

/// One more sample of a pixel: the sum before it, the ray that was cast,
/// the colour that the ray brought back and the number of surfaces that
/// passed it on.
pub struct SampleStep {
    pub before: Color,
    pub ray: Ray,
    pub color: Color,
    pub scatters: nat,
}

impl Camera {
    /// `step` describes a sample of the pixel in column `i` and row `j`: a
    /// ray that `get_ray` may cast through it, with a colour that the ray may
    /// bring back from the scene.
    pub open spec fn is_sample_step(
        self,
        objects: Seq<Sphere>,
        i: int,
        j: int,
        step: SampleStep,
    ) -> bool {
        self.is_primary_ray(i, j, step.ray) && is_path(
            objects,
            step.ray,
            self.max_depth as nat,
            step.color,
            step.scatters,
        )
    }

    /// `total` is a sum of `count` samples of the pixel in column `i` and
    /// row `j`.
    pub open spec fn is_sample_sum(
        self,
        objects: Seq<Sphere>,
        i: int,
        j: int,
        count: nat,
        total: Color,
    ) -> bool
        decreases count,
    {
        if count == 0 {
            total == spec_black()
        } else {
            exists|step: SampleStep|
                {
                    &&& #[trigger] self.is_sample_step(objects, i, j, step)
                    &&& self.is_sample_sum(objects, i, j, (count - 1) as nat, step.before)
                    &&& total == step.before.spec_add(step.color)
                }
        }
    }

    /// `pixel` is what the pixel in column `i` and row `j` may come out as:
    /// a sum of `pixel_samples` samples, turned into a pixel.
    pub open spec fn is_pixel(self, objects: Seq<Sphere>, i: int, j: int, pixel: Rgb) -> bool {
        exists|total: Color| #[trigger]
            self.is_sample_sum(objects, i, j, self.pixel_samples as nat, total) && pixel
                == spec_quantize(total, self.pixel_samples as int)
    }

    /// `row` is what row `j` of the image may come out as, from left to
    /// right.
    pub open spec fn is_row(self, objects: Seq<Sphere>, j: int, row: Seq<Rgb>) -> bool {
        &&& row.len() == self.image_width
        &&& forall|i: int| 0 <= i < row.len() ==> self.is_pixel(objects, i, j, #[trigger] row[i])
    }

    /// `pixels` is what the image may come out as: row by row from the top,
    /// each row from the left, so that pixel `k` lies in column
    /// `k % image_width` and row `k / image_width`.
    pub open spec fn is_raster(self, objects: Seq<Sphere>, pixels: Seq<Rgb>) -> bool {
        &&& pixels.len() == self.image_width * self.image_height
        &&& forall|k: int|
            0 <= k < pixels.len() ==> self.is_pixel(
                objects,
                k % (self.image_width as int),
                k / (self.image_width as int),
                #[trigger] pixels[k],
            )
    }

    /// `text` is what the image may come out as in the plain PPM format.
    pub open spec fn is_rendering(self, objects: Seq<Sphere>, text: Seq<char>) -> bool {
        exists|pixels: Seq<Rgb>| #[trigger]
            self.is_raster(objects, pixels) && text == spec_header(
                self.image_width as nat,
                self.image_height as nat,
            ) + spec_body(pixels)
    }

    /// The sum of the colours that `pixel_samples` random rays through the
    /// pixel in column `i` and row `j` bring back.
    pub fn pixel_color(&self, world: &Traceables, i: usize, j: usize) -> (total: Color)
        ensures
            self.is_sample_sum(world@, i as int, j as int, self.pixel_samples as nat, total),
    {
        let mut pixel_color: Color = Vec3::zero();
        let mut sample: usize = 0;
        while sample < self.pixel_samples
            invariant
                sample <= self.pixel_samples,
                self.is_sample_sum(world@, i as int, j as int, sample as nat, pixel_color),
            decreases self.pixel_samples - sample,
        {
            let ray: Ray = self.get_ray(i, j);
            let (color, scatters) = trace(&ray, self.max_depth, world);
            let ghost step = SampleStep {
                before: pixel_color,
                ray,
                color,
                scatters: scatters as nat,
            };
            pixel_color = pixel_color + color;
            sample += 1;
            assert(self.is_sample_step(world@, i as int, j as int, step));
        }
        pixel_color
    }

    /// The pixel in column `i` and row `j`.
    pub fn render_pixel(&self, world: &Traceables, i: usize, j: usize) -> (pixel: Rgb)
        ensures
            self.is_pixel(world@, i as int, j as int, pixel),
    {
        let total: Color = self.pixel_color(world, i, j);
        quantize(total, self.pixel_samples)
    }

    /// Row `j` of the image, from left to right. The camera has to be
    /// initialized.
    pub fn scanline(&self, world: &Traceables, j: usize) -> (row: Vec<Rgb>)
        ensures
            self.is_row(world@, j as int, row@),
    {
        let mut row: Vec<Rgb> = Vec::new();
        let mut i: usize = 0;
        while i < self.image_width
            invariant
                i <= self.image_width,
                row@.len() == i,
                forall|k: int| 0 <= k < i ==> self.is_pixel(world@, k, j as int, #[trigger] row@[k]),
            decreases self.image_width - i,
        {
            let pixel: Rgb = self.render_pixel(world, i, j);
            row.push(pixel);
            i += 1;
        }
        row
    }

    /// Initializes the camera and renders the scene: every pixel gets the
    /// mean of `pixel_samples` random rays through it, gamma-corrected. The
    /// result is the text of the image in the plain PPM format, with the
    /// rows from top to bottom and each row from left to right.
    pub fn render(&mut self, world: &Traceables) -> (text: String)
        ensures
            *final(self) == old(self).spec_initialize(),
            final(self).is_rendering(world@, text@),
    {
        self.initialize();
        let mut pixels: Vec<Rgb> = Vec::new();
        let mut j: usize = 0;
        let ghost mut base: int = 0;
        let width: usize = self.image_width;
        let height: usize = self.image_height;
        while j < height
            invariant
                *self == old(self).spec_initialize(),
                width == self.image_width,
                height == self.image_height,
                j <= height,
                base == j * width,
                pixels@.len() == base,
                forall|k: int|
                    0 <= k < pixels@.len() ==> self.is_pixel(
                        world@,
                        k % (width as int),
                        k / (width as int),
                        #[trigger] pixels@[k],
                    ),
            decreases height - j,
        {
            let mut i: usize = 0;
            while i < width
                invariant
                    *self == old(self).spec_initialize(),
                    width == self.image_width,
                    j < height,
                    i <= width,
                    base == j * width,
                    pixels@.len() == base + i,
                    forall|k: int|
                        0 <= k < pixels@.len() ==> self.is_pixel(
                            world@,
                            k % (width as int),
                            k / (width as int),
                            #[trigger] pixels@[k],
                        ),
                decreases width - i,
            {
                let pixel: Rgb = self.render_pixel(world, i, j);
                proof {
                    vstd::arithmetic::div_mod::lemma_fundamental_div_mod_converse(
                        base + i,
                        width as int,
                        j as int,
                        i as int,
                    );
                }
                pixels.push(pixel);
                i += 1;
            }
            proof {
                assert((j + 1) * width == j * width + width) by (nonlinear_arith);
                base = base + width;
            }
            j += 1;
        }
        let text: String = encode_ppm(width, height, &pixels);
        assert(self.is_raster(world@, pixels@)) by {
            assert(height * width == width * height) by (nonlinear_arith);
        }
        text
    }
}

} // verus!
