//! What a ray can strike, and the record of where it struck.

use crate::interval::Interval;
use crate::lambert::Lambertian;
use crate::material::Surface;
use crate::ray::Ray;
use crate::scalar::{group_scalar, Scalar};
use crate::sphere::{lemma_hit_narrowed, lemma_hit_takes_smaller_root, Sphere};
use crate::vector::{dot, lemma_dot_neg, Point3, Vec3};
use core::ops::Neg;
use vstd::prelude::*;

verus! {

/// Where a ray struck a surface.
#[derive(Clone, Copy, Debug)]
pub struct HitRecord {
    /// The point that was struck.
    pub point: Point3,
    /// The surface normal at that point, turned against the ray.
    pub normal: Vec3,
    /// The parameter of the ray at that point.
    pub parameter: Scalar,
    /// Whether the ray came from outside the object.
    pub ray_faces_outside: bool,
    /// The surface that was struck.
    pub material: Surface,
}

impl HitRecord {
    /// The record that `new` returns.
    pub open spec fn spec_new() -> HitRecord {
        HitRecord {
            point: Vec3::spec_zero(),
            normal: Vec3::spec_zero(),
            parameter: Scalar::spec_zero(),
            ray_faces_outside: true,
            material: Surface::Diffuse(Lambertian { albedo: Vec3::spec_zero() }),
        }
    }

    /// Whether the outward normal `n` opposes a ray of direction `d`.
    pub open spec fn spec_faces_outside(d: Vec3, n: Vec3) -> bool {
        d.spec_dot(n)@ < 0
    }

    /// The normal `n` turned so that it opposes a ray of direction `d`.
    pub open spec fn spec_face_normal(d: Vec3, n: Vec3) -> Vec3 {
        if HitRecord::spec_faces_outside(d, n) {
            n
        } else {
            n.spec_neg()
        }
    }

    /// This record with the orientation that `set_normal_face` gives it.
    pub open spec fn spec_set_normal_face(self, ray: Ray, outward_normal: Vec3) -> HitRecord {
        HitRecord {
            ray_faces_outside: HitRecord::spec_faces_outside(ray.direction, outward_normal),
            normal: HitRecord::spec_face_normal(ray.direction, outward_normal),
            ..self
        }
    }

    /// A record at the origin with a zero normal, parameter zero and a black
    /// matte surface, marked as struck from outside.
    pub fn new() -> (r: HitRecord)
        ensures
            r == HitRecord::spec_new(),
    {
        HitRecord {
            point: Vec3::zero(),
            normal: Vec3::zero(),
            parameter: Scalar::zero(),
            ray_faces_outside: true,
            material: Surface::Diffuse(Lambertian { albedo: Vec3::zero() }),
        }
    }

    /// The point that was struck.
    pub fn point(&self) -> (r: Point3)
        ensures
            r == self.point,
    {
        self.point
    }

    /// The surface normal, turned against the ray.
    pub fn normal(&self) -> (r: Vec3)
        ensures
            r == self.normal,
    {
        self.normal
    }

    /// The parameter of the ray at the point that was struck.
    pub fn parameter(&self) -> (r: Scalar)
        ensures
            r == self.parameter,
    {
        self.parameter
    }

    /// Whether the ray came from outside the object.
    pub fn ray_faces_outside(&self) -> (r: bool)
        ensures
            r == self.ray_faces_outside,
    {
        self.ray_faces_outside
    }

    /// The surface that was struck.
    pub fn material(&self) -> (r: Surface)
        ensures
            r == self.material,
    {
        self.material
    }

    /// Sets the point that was struck.
    pub fn set_point(&mut self, point: Point3)
        ensures
            *final(self) == (HitRecord { point, ..*old(self) }),
    {
        self.point = point;
    }

    /// Sets the normal.
    pub fn set_normal(&mut self, normal: Vec3)
        ensures
            *final(self) == (HitRecord { normal, ..*old(self) }),
    {
        self.normal = normal;
    }

    /// Sets the parameter of the ray.
    pub fn set_parameter(&mut self, parameter: Scalar)
        ensures
            *final(self) == (HitRecord { parameter, ..*old(self) }),
    {
        self.parameter = parameter;
    }

    /// Sets whether the ray came from outside the object.
    pub fn set_ray_faces_outside(&mut self, ray_faces_outside: bool)
        ensures
            *final(self) == (HitRecord { ray_faces_outside, ..*old(self) }),
    {
        self.ray_faces_outside = ray_faces_outside;
    }

    /// Sets the surface that was struck.
    pub fn set_material(&mut self, material: Surface)
        ensures
            *final(self) == (HitRecord { material, ..*old(self) }),
    {
        self.material = material;
    }

    /// Orients the record: notes whether `ray` strikes the surface from
    /// outside, and stores the normal turned against the ray.
    pub fn set_normal_face(&mut self, ray: &Ray, outward_normal: &Vec3)
        ensures
            *final(self) == old(self).spec_set_normal_face(*ray, *outward_normal),
            final(self).ray_faces_outside == (ray.direction.spec_dot(*outward_normal)@ < 0),
            ray.direction.spec_dot(final(self).normal)@ <= 0,
    {
        proof {
            broadcast use group_scalar;

            use_type_invariant(&outward_normal.x);
            use_type_invariant(&outward_normal.y);
            use_type_invariant(&outward_normal.z);
            crate::scalar::lemma_wf(outward_normal.x);
            crate::scalar::lemma_wf(outward_normal.y);
            crate::scalar::lemma_wf(outward_normal.z);
            lemma_face_normal_opposes(ray.direction, *outward_normal);
        }
        self.ray_faces_outside = dot(&ray.direction, outward_normal).lt(Scalar::zero());
        self.normal = if self.ray_faces_outside {
            *outward_normal
        } else {
            outward_normal.neg()
        };
    }
}

/// The normal that `set_normal_face` stores never points along the ray: its
/// dot product with the direction of the ray is at most zero.
pub proof fn lemma_face_normal_opposes(d: Vec3, n: Vec3)
    requires
        n.wf(),
    ensures
        d.spec_dot(HitRecord::spec_face_normal(d, n))@ <= 0,
{
    lemma_dot_neg(d, n);
}

/// Something that a ray can strike.
pub trait Traceable {
    /// The record of the strike of `ray` with a parameter strictly inside
    /// `within`, if there is one.
    spec fn spec_hit(&self, ray: Ray, within: Interval) -> Option<HitRecord>;

    /// Tests `ray` against the object. Where the ray strikes it with a
    /// parameter strictly inside `ray_parameter`, the strike is written to
    /// `record`; else `record` is left as it was.
    fn hit(&self, ray: &Ray, ray_parameter: Interval, record: &mut HitRecord) -> (struck: bool)
        ensures
            struck == self.spec_hit(*ray, ray_parameter).is_some(),
            struck ==> *final(record) == self.spec_hit(*ray, ray_parameter).unwrap(),
            struck ==> ray_parameter.spec_surrounds(final(record).parameter),
            struck ==> ray.direction.spec_dot(final(record).normal)@ <= 0,
            !struck ==> *final(record) == *old(record),
    ;
}

/// A scene: the objects that a ray is tested against, in the order in which
/// they were added.
pub struct Traceables {
    pub traceable_objects: Vec<Sphere>,
}

/// The range `within` with its upper end lowered to the parameter of `found`,
/// where something was found.
pub open spec fn spec_narrowed(within: Interval, found: Option<HitRecord>) -> Interval {
    match found {
        Some(h) => Interval { min: within.min, max: h.parameter },
        None => within,
    }
}

/// The strike that a walk through `objects` ends with: each object is tested
/// against the range narrowed to the strike found so far, and replaces that
/// strike where it is struck.
pub open spec fn spec_nearest(objects: Seq<Sphere>, ray: Ray, within: Interval) -> Option<
    HitRecord,
>
    decreases objects.len(),
{
    if objects.len() == 0 {
        None
    } else {
        let before = spec_nearest(objects.drop_last(), ray, within);
        match objects.last().spec_hit(ray, spec_narrowed(within, before)) {
            Some(h) => Some(h),
            None => before,
        }
    }
}

/// `h` is a strike of one of `objects` within `within`, and none of them is
/// struck at a smaller parameter.
pub open spec fn is_nearest_strike(
    objects: Seq<Sphere>,
    ray: Ray,
    within: Interval,
    h: HitRecord,
) -> bool {
    &&& within.spec_surrounds(h.parameter)
    &&& exists|i: int|
        0 <= i < objects.len() && (#[trigger] objects[i]).spec_hit(ray, within) == Some(h)
    &&& forall|j: int|
        0 <= j < objects.len() ==> ((#[trigger] objects[j]).spec_hit(ray, within) matches Some(
            other,
        ) ==> h.parameter@ <= other.parameter@)
}

/// None of `objects` is struck within `within`.
pub open spec fn none_struck(objects: Seq<Sphere>, ray: Ray, within: Interval) -> bool {
    forall|i: int|
        0 <= i < objects.len() ==> (#[trigger] objects[i]).spec_hit(ray, within).is_none()
}

/// The walk through a scene ends with the nearest strike: with the record of
/// a member that is struck at the smallest parameter, and with nothing only
/// where no member is struck.
pub proof fn lemma_nearest_is_minimal(objects: Seq<Sphere>, ray: Ray, within: Interval)
    ensures
        match spec_nearest(objects, ray, within) {
            None => none_struck(objects, ray, within),
            Some(h) => is_nearest_strike(objects, ray, within, h),
        },
    decreases objects.len(),
{
    if objects.len() > 0 {
        let front = objects.drop_last();
        let last = objects.last();
        let before = spec_nearest(front, ray, within);
        lemma_nearest_is_minimal(front, ray, within);
        lemma_hit_takes_smaller_root(last, ray, within);
        assert forall|i: int| 0 <= i < front.len() implies front[i] == objects[i] by {}
        match before {
            None => {
                match last.spec_hit(ray, within) {
                    None => {
                        assert forall|i: int| 0 <= i < objects.len() implies (
                        #[trigger] objects[i]).spec_hit(ray, within).is_none() by {
                            if i < front.len() {
                                assert(front[i] == objects[i]);
                            }
                        }
                    },
                    Some(h) => {
                        assert(objects[objects.len() - 1].spec_hit(ray, within) == Some(h));
                        assert forall|j: int| 0 <= j < objects.len() implies ((
                        #[trigger] objects[j]).spec_hit(ray, within) matches Some(other)
                            ==> h.parameter@ <= other.parameter@) by {
                            if j < front.len() {
                                assert(front[j] == objects[j]);
                            }
                        }
                    },
                }
            },
            Some(hb) => {
                lemma_hit_narrowed(last, ray, within, hb.parameter);
                let i0 = choose|i: int|
                    0 <= i < front.len() && (#[trigger] front[i]).spec_hit(ray, within) == Some(
                        hb,
                    );
                assert(front[i0] == objects[i0]);
                match last.spec_hit(ray, spec_narrowed(within, before)) {
                    None => {
                        assert(objects[i0].spec_hit(ray, within) == Some(hb));
                        assert forall|j: int| 0 <= j < objects.len() implies ((
                        #[trigger] objects[j]).spec_hit(ray, within) matches Some(other)
                            ==> hb.parameter@ <= other.parameter@) by {
                            if j < front.len() {
                                assert(front[j] == objects[j]);
                            }
                        }
                    },
                    Some(h) => {
                        assert(objects[objects.len() - 1].spec_hit(ray, within) == Some(h));
                        assert forall|j: int| 0 <= j < objects.len() implies ((
                        #[trigger] objects[j]).spec_hit(ray, within) matches Some(other)
                            ==> h.parameter@ <= other.parameter@) by {
                            if j < front.len() {
                                assert(front[j] == objects[j]);
                            }
                        }
                    },
                }
            },
        }
    }
}

/// The nearest strike does not depend on the order of the objects: two
/// scenes that hold the same objects are struck alike, and at the same
/// parameter.
pub proof fn lemma_nearest_order_independent(
    first: Seq<Sphere>,
    second: Seq<Sphere>,
    ray: Ray,
    within: Interval,
)
    requires
        first.to_multiset() == second.to_multiset(),
    ensures
        spec_nearest(first, ray, within).is_some() == spec_nearest(second, ray, within).is_some(),
        spec_nearest(first, ray, within) matches Some(h) ==> spec_nearest(
            second,
            ray,
            within,
        ).unwrap().parameter@ == h.parameter@,
{
    lemma_nearest_is_minimal(first, ray, within);
    lemma_nearest_is_minimal(second, ray, within);
    lemma_same_members(first, second);
    lemma_same_members(second, first);
    match spec_nearest(first, ray, within) {
        None => {
            if let Some(h) = spec_nearest(second, ray, within) {
                let j = choose|j: int|
                    0 <= j < second.len() && (#[trigger] second[j]).spec_hit(ray, within) == Some(
                        h,
                    );
                assert(first.contains(second[j]));
                let i = choose|i: int| 0 <= i < first.len() && first[i] == second[j];
                assert(first[i].spec_hit(ray, within).is_none());
            }
        },
        Some(h) => {
            let i = choose|i: int|
                0 <= i < first.len() && (#[trigger] first[i]).spec_hit(ray, within) == Some(h);
            assert(second.contains(first[i]));
            let j = choose|j: int| 0 <= j < second.len() && second[j] == first[i];
            assert(second[j].spec_hit(ray, within) == Some(h));
            let g = spec_nearest(second, ray, within).unwrap();
            let j2 = choose|j: int|
                0 <= j < second.len() && (#[trigger] second[j]).spec_hit(ray, within) == Some(g);
            assert(first.contains(second[j2]));
            let i2 = choose|i: int| 0 <= i < first.len() && first[i] == second[j2];
            assert(first[i2].spec_hit(ray, within) == Some(g));
        },
    }
}

/// No two of `objects` are struck at the same parameter, unless with the
/// same record: the ray meets their surfaces one after the other.
pub open spec fn strikes_are_apart(objects: Seq<Sphere>, ray: Ray, within: Interval) -> bool {
    forall|i: int, j: int|
        0 <= i < objects.len() && 0 <= j < objects.len() ==> ((#[trigger] objects[i]).spec_hit(
            ray,
            within,
        ) matches Some(a) ==> ((#[trigger] objects[j]).spec_hit(ray, within) matches Some(b)
            ==> a.parameter@ == b.parameter@ ==> a == b))
}

/// Where the ray meets the surfaces of the scene one after the other, the
/// whole record of the nearest strike does not depend on the order of the
/// objects.
pub proof fn lemma_nearest_record_order_independent(
    first: Seq<Sphere>,
    second: Seq<Sphere>,
    ray: Ray,
    within: Interval,
)
    requires
        first.to_multiset() == second.to_multiset(),
        strikes_are_apart(first, ray, within),
    ensures
        spec_nearest(first, ray, within) == spec_nearest(second, ray, within),
{
    lemma_nearest_order_independent(first, second, ray, within);
    lemma_nearest_is_minimal(first, ray, within);
    lemma_nearest_is_minimal(second, ray, within);
    lemma_same_members(second, first);
    if let Some(h) = spec_nearest(first, ray, within) {
        let g = spec_nearest(second, ray, within).unwrap();
        let i = choose|i: int|
            0 <= i < first.len() && (#[trigger] first[i]).spec_hit(ray, within) == Some(h);
        let j = choose|j: int|
            0 <= j < second.len() && (#[trigger] second[j]).spec_hit(ray, within) == Some(g);
        assert(first.contains(second[j]));
        let k = choose|k: int| 0 <= k < first.len() && first[k] == second[j];
        assert(first[k].spec_hit(ray, within) == Some(g));
        assert(first[i].spec_hit(ray, within) == Some(h));
    }
}

/// Every member of a sequence occurs in each rearrangement of it.
pub proof fn lemma_same_members(first: Seq<Sphere>, second: Seq<Sphere>)
    requires
        first.to_multiset() == second.to_multiset(),
    ensures
        forall|i: int| 0 <= i < first.len() ==> second.contains(#[trigger] first[i]),
{
    assert forall|i: int| 0 <= i < first.len() implies second.contains(#[trigger] first[i]) by {
        first.to_multiset_ensures();
        second.to_multiset_ensures();
        assert(first.contains(first[i]));
        assert(first.to_multiset().count(first[i]) > 0);
        assert(second.to_multiset().count(first[i]) > 0);
    }
}

impl Traceables {
    /// The objects of the scene.
    pub open spec fn view(&self) -> Seq<Sphere> {
        self.traceable_objects@
    }

    /// A scene without objects.
    pub fn new() -> (r: Traceables)
        ensures
            r@ == Seq::<Sphere>::empty(),
    {
        Traceables { traceable_objects: Vec::new() }
    }

    /// Removes every object.
    pub fn clear(&mut self)
        ensures
            final(self)@ == Seq::<Sphere>::empty(),
    {
        self.traceable_objects.clear();
    }

    /// Adds an object.
    pub fn add(&mut self, object: Sphere)
        ensures
            final(self)@ == old(self)@.push(object),
    {
        self.traceable_objects.push(object);
    }

    /// The number of objects.
    pub fn len(&self) -> (n: usize)
        ensures
            n == self@.len(),
    {
        self.traceable_objects.len()
    }
}

impl Traceable for Traceables {
    /// The nearest strike on an object of the scene.
    open spec fn spec_hit(&self, ray: Ray, within: Interval) -> Option<HitRecord> {
        spec_nearest(self@, ray, within)
    }

    /// Walks through the objects and keeps the strike with the smallest
    /// parameter: every object is tested against the range whose upper end
    /// is the parameter of the nearest strike so far.
    fn hit(&self, ray: &Ray, ray_parameter: Interval, record: &mut HitRecord) -> (struck: bool)
    {
        let mut temp_record: HitRecord = HitRecord::new();
        let mut closest_parameter: Scalar = ray_parameter.max();
        let mut has_hit: bool = false;
        let mut i: usize = 0;
        let ghost objects = self@;
        assert(objects.take(0) =~= Seq::<Sphere>::empty());
        while i < self.traceable_objects.len()
            invariant
                objects == self@,
                i <= objects.len(),
                has_hit == spec_nearest(objects.take(i as int), *ray, ray_parameter).is_some(),
                has_hit ==> *record == spec_nearest(
                    objects.take(i as int),
                    *ray,
                    ray_parameter,
                ).unwrap(),
                has_hit ==> closest_parameter == record.parameter,
                has_hit ==> ray_parameter.spec_surrounds(record.parameter),
                has_hit ==> ray.direction.spec_dot(record.normal)@ <= 0,
                !has_hit ==> *record == *old(record),
                !has_hit ==> closest_parameter == ray_parameter.max,
            decreases objects.len() - i,
        {
            proof {
                assert(objects.take(i + 1).drop_last() =~= objects.take(i as int));
                assert(objects.take(i + 1).last() == objects[i as int]);
            }
            if self.traceable_objects[i].hit(
                ray,
                Interval::new(ray_parameter.min(), closest_parameter),
                &mut temp_record,
            ) {
                has_hit = true;
                closest_parameter = temp_record.parameter;
                *record = temp_record;
            }
            i += 1;
        }
        assert(objects.take(i as int) =~= objects);
        has_hit
    }
}

} // verus!
