//! Three-component vectors, used alike for directions, points and colours.

use crate::rt_math::{random_number, random_number_in_range};
use crate::scalar::{
    fx_div, fx_hypot3, fx_mul, group_scalar, lemma_div_fraction, lemma_div_range,
    lemma_hypot_dominates, lemma_mul_neg, lemma_mul_range, lemma_mul_self_nonneg, lemma_sat_odd,
    lemma_wf, mag, scale, Scalar,
};
use core::ops::{AddAssign, Neg};
use vstd::prelude::*;

verus! {

/// A point in space; the same type as a free vector.
pub type Point3 = Vec3;

/// A vector of three scalars.
#[derive(Clone, Copy, Debug)]
pub struct Vec3 {
    pub x: Scalar,
    pub y: Scalar,
    pub z: Scalar,
}

/// The smallest raw magnitude that is not below `1e-8`: a component counts as
/// zero when its raw magnitude is smaller.
pub const NEAR_ZERO_RAW: i64 = 43;

/// Upper bound on the candidates that rejection sampling draws before it
/// settles for a fixed direction.
pub const MAX_DRAWS: u32 = 128;

impl Vec3 {
    /// All three components are well-formed scalars.
    pub open spec fn wf(self) -> bool {
        self.x.wf() && self.y.wf() && self.z.wf()
    }

    /// The vector with the given components.
    pub open spec fn spec_new(x: Scalar, y: Scalar, z: Scalar) -> Vec3 {
        Vec3 { x, y, z }
    }

    /// The zero vector.
    pub open spec fn spec_zero() -> Vec3 {
        Vec3 { x: Scalar::spec_zero(), y: Scalar::spec_zero(), z: Scalar::spec_zero() }
    }

    /// Component-wise sum.
    pub open spec fn spec_add(self, o: Vec3) -> Vec3 {
        Vec3 { x: self.x.spec_add(o.x), y: self.y.spec_add(o.y), z: self.z.spec_add(o.z) }
    }

    /// Component-wise difference.
    pub open spec fn spec_sub(self, o: Vec3) -> Vec3 {
        Vec3 { x: self.x.spec_sub(o.x), y: self.y.spec_sub(o.y), z: self.z.spec_sub(o.z) }
    }

    /// Component-wise product.
    pub open spec fn spec_mul(self, o: Vec3) -> Vec3 {
        Vec3 { x: self.x.spec_mul(o.x), y: self.y.spec_mul(o.y), z: self.z.spec_mul(o.z) }
    }

    /// Component-wise quotient.
    pub open spec fn spec_div(self, o: Vec3) -> Vec3 {
        Vec3 { x: self.x.spec_div(o.x), y: self.y.spec_div(o.y), z: self.z.spec_div(o.z) }
    }

    /// The vector scaled by `t`.
    pub open spec fn spec_scale(self, t: Scalar) -> Vec3 {
        Vec3 { x: t.spec_mul(self.x), y: t.spec_mul(self.y), z: t.spec_mul(self.z) }
    }

    /// The vector with every component divided by `t`.
    pub open spec fn spec_shrink(self, t: Scalar) -> Vec3 {
        Vec3 { x: self.x.spec_div(t), y: self.y.spec_div(t), z: self.z.spec_div(t) }
    }

    /// The vector of the quotients of `t` by each component.
    pub open spec fn spec_under(self, t: Scalar) -> Vec3 {
        Vec3 { x: t.spec_div(self.x), y: t.spec_div(self.y), z: t.spec_div(self.z) }
    }

    /// The opposite vector.
    pub open spec fn spec_neg(self) -> Vec3 {
        Vec3 { x: self.x.spec_neg(), y: self.y.spec_neg(), z: self.z.spec_neg() }
    }

    /// The dot product: the sum of the products of the components.
    pub open spec fn spec_dot(self, o: Vec3) -> Scalar {
        self.x.spec_mul(o.x).spec_add(self.y.spec_mul(o.y)).spec_add(self.z.spec_mul(o.z))
    }

    /// The cross product.
    pub open spec fn spec_cross(self, o: Vec3) -> Vec3 {
        Vec3 {
            x: self.y.spec_mul(o.z).spec_sub(self.z.spec_mul(o.y)),
            y: self.z.spec_mul(o.x).spec_sub(self.x.spec_mul(o.z)),
            z: self.x.spec_mul(o.y).spec_sub(self.y.spec_mul(o.x)),
        }
    }

    /// The squared length.
    pub open spec fn spec_magnitude(self) -> Scalar {
        self.spec_dot(self)
    }

    /// The Euclidean length, rounded down.
    pub open spec fn spec_length(self) -> Scalar {
        Scalar::spec_hypot3(self.x, self.y, self.z)
    }

    /// The vector divided by its length.
    pub open spec fn spec_normalize(self) -> Vec3 {
        self.spec_shrink(self.spec_length())
    }

    /// Every component is smaller in magnitude than `1e-8`.
    pub open spec fn spec_approx_zero(self) -> bool {
        mag(self.x@) < NEAR_ZERO_RAW && mag(self.y@) < NEAR_ZERO_RAW && mag(self.z@) < NEAR_ZERO_RAW
    }

    /// The mirror image of `v` at the plane with normal `n`: `v - 2 (v . n) n`.
    pub open spec fn spec_reflect(v: Vec3, n: Vec3) -> Vec3 {
        v.spec_sub(n.spec_scale(Scalar::spec_from_int(2).spec_mul(v.spec_dot(n))))
    }

    /// The component at index 0, 1 or 2.
    pub open spec fn spec_index(self, i: int) -> Scalar {
        if i == 0 {
            self.x
        } else if i == 1 {
            self.y
        } else {
            self.z
        }
    }

    /// The vector with the component at index 0, 1 or 2 replaced.
    pub open spec fn spec_with(self, i: int, value: Scalar) -> Vec3 {
        if i == 0 {
            Vec3 { x: value, ..self }
        } else if i == 1 {
            Vec3 { y: value, ..self }
        } else {
            Vec3 { z: value, ..self }
        }
    }
}

impl Vec3 {
    /// The vector with the given components.
    pub fn new(x: Scalar, y: Scalar, z: Scalar) -> (r: Vec3)
        ensures
            r == Vec3::spec_new(x, y, z),
    {
        Vec3 { x, y, z }
    }

    /// The zero vector.
    pub fn zero() -> (r: Vec3)
        ensures
            r == Vec3::spec_zero(),
    {
        Vec3 { x: Scalar::zero(), y: Scalar::zero(), z: Scalar::zero() }
    }

    /// The first component.
    pub fn x(&self) -> (r: Scalar)
        ensures
            r == self.x,
    {
        self.x
    }

    /// The second component.
    pub fn y(&self) -> (r: Scalar)
        ensures
            r == self.y,
    {
        self.y
    }

    /// The third component.
    pub fn z(&self) -> (r: Scalar)
        ensures
            r == self.z,
    {
        self.z
    }

    /// The Euclidean length, rounded down.
    pub fn length(&self) -> (r: Scalar)
        ensures
            r == self.spec_length(),
    {
        Scalar::hypot3(self.x, self.y, self.z)
    }

    /// The squared length.
    pub fn magnitude(&self) -> (r: Scalar)
        ensures
            r == self.spec_magnitude(),
    {
        self.x * self.x + self.y * self.y + self.z * self.z
    }

    /// The dot product.
    pub fn dot(&self, other: &Vec3) -> (r: Scalar)
        ensures
            r == self.spec_dot(*other),
    {
        self.x * other.x + self.y * other.y + self.z * other.z
    }

    /// The cross product.
    pub fn cross(&self, other: &Vec3) -> (r: Vec3)
        ensures
            r == self.spec_cross(*other),
    {
        Vec3 {
            x: self.y * other.z - self.z * other.y,
            y: self.z * other.x - self.x * other.z,
            z: self.x * other.y - self.y * other.x,
        }
    }

    /// The vector divided by its length. The zero vector has no direction
    /// and is returned unchanged.
    pub fn normalize(&self) -> (r: Vec3)
        ensures
            r == self.spec_normalize(),
            r.in_box(Scalar::spec_from_int(-1), Scalar::spec_one()),
    {
        proof {
            use_type_invariant(&self.x);
            use_type_invariant(&self.y);
            use_type_invariant(&self.z);
            lemma_wf(self.x);
            lemma_wf(self.y);
            lemma_wf(self.z);
            lemma_normalize_bounded(*self);
        }
        let len: Scalar = self.length();
        Vec3 { x: self.x / len, y: self.y / len, z: self.z / len }
    }

    /// Whether every component is smaller in magnitude than `1e-8`.
    pub fn approx_zero(&self) -> (b: bool)
        ensures
            b == self.spec_approx_zero(),
    {
        let range: Scalar = Scalar::from_raw(NEAR_ZERO_RAW);
        self.x.abs().lt(range) && self.y.abs().lt(range) && self.z.abs().lt(range)
    }

    /// The mirror image of `vector` at the plane with normal `normal`.
    pub fn reflect(vector: &Vec3, normal: &Vec3) -> (r: Vec3)
        ensures
            r == Vec3::spec_reflect(*vector, *normal),
    {
        *vector - Scalar::from_int(2) * dot(vector, normal) * *normal
    }
}

/// The dot product of two vectors.
pub fn dot(v1: &Vec3, v2: &Vec3) -> (r: Scalar)
    ensures
        r == v1.spec_dot(*v2),
{
    v1.x * v2.x + v1.y * v2.y + v1.z * v2.z
}

impl core::ops::Add for Vec3 {
    type Output = Vec3;

    /// Component-wise sum.
    fn add(self, rhs: Vec3) -> (r: Vec3)
        ensures
            r == self.spec_add(rhs),
    {
        Vec3 { x: self.x + rhs.x, y: self.y + rhs.y, z: self.z + rhs.z }
    }
}

impl vstd::std_specs::ops::AddSpecImpl for Vec3 {
    open spec fn obeys_add_spec() -> bool {
        true
    }

    open spec fn add_req(self, rhs: Vec3) -> bool {
        true
    }

    open spec fn add_spec(self, rhs: Vec3) -> Vec3 {
        self.spec_add(rhs)
    }
}

impl core::ops::Sub for Vec3 {
    type Output = Vec3;

    /// Component-wise difference.
    fn sub(self, rhs: Vec3) -> (r: Vec3)
        ensures
            r == self.spec_sub(rhs),
    {
        Vec3 { x: self.x - rhs.x, y: self.y - rhs.y, z: self.z - rhs.z }
    }
}

impl vstd::std_specs::ops::SubSpecImpl for Vec3 {
    open spec fn obeys_sub_spec() -> bool {
        true
    }

    open spec fn sub_req(self, rhs: Vec3) -> bool {
        true
    }

    open spec fn sub_spec(self, rhs: Vec3) -> Vec3 {
        self.spec_sub(rhs)
    }
}

impl core::ops::Mul for Vec3 {
    type Output = Vec3;

    /// Component-wise product.
    fn mul(self, rhs: Vec3) -> (r: Vec3)
        ensures
            r == self.spec_mul(rhs),
    {
        Vec3 { x: self.x * rhs.x, y: self.y * rhs.y, z: self.z * rhs.z }
    }
}

impl vstd::std_specs::ops::MulSpecImpl for Vec3 {
    open spec fn obeys_mul_spec() -> bool {
        true
    }

    open spec fn mul_req(self, rhs: Vec3) -> bool {
        true
    }

    open spec fn mul_spec(self, rhs: Vec3) -> Vec3 {
        self.spec_mul(rhs)
    }
}

impl core::ops::Mul<Vec3> for Scalar {
    type Output = Vec3;

    /// The vector scaled by the scalar.
    fn mul(self, rhs: Vec3) -> (r: Vec3)
        ensures
            r == rhs.spec_scale(self),
    {
        Vec3 { x: self * rhs.x, y: self * rhs.y, z: self * rhs.z }
    }
}

impl vstd::std_specs::ops::MulSpecImpl<Vec3> for Scalar {
    open spec fn obeys_mul_spec() -> bool {
        true
    }

    open spec fn mul_req(self, rhs: Vec3) -> bool {
        true
    }

    open spec fn mul_spec(self, rhs: Vec3) -> Vec3 {
        rhs.spec_scale(self)
    }
}

impl core::ops::Mul<Scalar> for Vec3 {
    type Output = Vec3;

    /// The vector scaled by the scalar.
    fn mul(self, rhs: Scalar) -> (r: Vec3)
        ensures
            r == self.spec_scale(rhs),
    {
        Vec3 { x: rhs * self.x, y: rhs * self.y, z: rhs * self.z }
    }
}

impl vstd::std_specs::ops::MulSpecImpl<Scalar> for Vec3 {
    open spec fn obeys_mul_spec() -> bool {
        true
    }

    open spec fn mul_req(self, rhs: Scalar) -> bool {
        true
    }

    open spec fn mul_spec(self, rhs: Scalar) -> Vec3 {
        self.spec_scale(rhs)
    }
}

impl core::ops::Div for Vec3 {
    type Output = Vec3;

    /// Component-wise quotient.
    fn div(self, rhs: Vec3) -> (r: Vec3)
        ensures
            r == self.spec_div(rhs),
    {
        Vec3 { x: self.x / rhs.x, y: self.y / rhs.y, z: self.z / rhs.z }
    }
}

impl vstd::std_specs::ops::DivSpecImpl for Vec3 {
    open spec fn obeys_div_spec() -> bool {
        true
    }

    open spec fn div_req(self, rhs: Vec3) -> bool {
        true
    }

    open spec fn div_spec(self, rhs: Vec3) -> Vec3 {
        self.spec_div(rhs)
    }
}

impl core::ops::Div<Vec3> for Scalar {
    type Output = Vec3;

    /// The quotients of the scalar by each component.
    fn div(self, rhs: Vec3) -> (r: Vec3)
        ensures
            r == rhs.spec_under(self),
    {
        Vec3 { x: self / rhs.x, y: self / rhs.y, z: self / rhs.z }
    }
}

impl vstd::std_specs::ops::DivSpecImpl<Vec3> for Scalar {
    open spec fn obeys_div_spec() -> bool {
        true
    }

    open spec fn div_req(self, rhs: Vec3) -> bool {
        true
    }

    open spec fn div_spec(self, rhs: Vec3) -> Vec3 {
        rhs.spec_under(self)
    }
}

impl core::ops::Div<Scalar> for Vec3 {
    type Output = Vec3;

    /// Every component divided by the scalar.
    fn div(self, rhs: Scalar) -> (r: Vec3)
        ensures
            r == self.spec_shrink(rhs),
    {
        Vec3 { x: self.x / rhs, y: self.y / rhs, z: self.z / rhs }
    }
}

impl vstd::std_specs::ops::DivSpecImpl<Scalar> for Vec3 {
    open spec fn obeys_div_spec() -> bool {
        true
    }

    open spec fn div_req(self, rhs: Scalar) -> bool {
        true
    }

    open spec fn div_spec(self, rhs: Scalar) -> Vec3 {
        self.spec_shrink(rhs)
    }
}

impl core::ops::Neg for Vec3 {
    type Output = Vec3;

    /// The opposite vector.
    fn neg(self) -> (r: Vec3)
        ensures
            r == self.spec_neg(),
    {
        Vec3 { x: self.x.neg(), y: self.y.neg(), z: self.z.neg() }
    }
}

impl vstd::std_specs::ops::NegSpecImpl for Vec3 {
    open spec fn obeys_neg_spec() -> bool {
        true
    }

    open spec fn neg_req(self) -> bool {
        true
    }

    open spec fn neg_spec(self) -> Vec3 {
        self.spec_neg()
    }
}

impl Vec3 {
    /// Every component lies in `[0, 1)`.
    pub open spec fn in_unit_box(self) -> bool {
        0 <= self.x@ < scale() && 0 <= self.y@ < scale() && 0 <= self.z@ < scale()
    }

    /// Every component lies in `[min, max]`.
    pub open spec fn in_box(self, min: Scalar, max: Scalar) -> bool {
        min@ <= self.x@ <= max@ && min@ <= self.y@ <= max@ && min@ <= self.z@ <= max@
    }

    /// A candidate that rejection sampling accepts for the unit ball: every
    /// component lies in `[-1, 1]` and the squared length is below one.
    pub open spec fn in_unit_ball(self) -> bool {
        self.in_box(Scalar::spec_from_int(-1), Scalar::spec_one()) && self.spec_magnitude()@
            < scale()
    }

    /// A candidate that rejection sampling accepts for the unit disc: a point
    /// of the unit ball in the plane `z = 0`.
    pub open spec fn in_unit_disc(self) -> bool {
        self.in_unit_ball() && self.z@ == 0
    }

    /// The direction that stands in when rejection sampling finds no
    /// candidate: the unit vector along the first axis.
    pub open spec fn spec_fallback_unit() -> Vec3 {
        Vec3 { x: Scalar::spec_one(), y: Scalar::spec_zero(), z: Scalar::spec_zero() }
    }

    /// What `random_unit_sphere_vector` may return: an accepted candidate,
    /// normalized, or the stand-in direction.
    pub open spec fn is_unit_sample(self) -> bool {
        self == Vec3::spec_fallback_unit() || exists|c: Vec3|
            #[trigger] c.in_unit_ball() && self == c.spec_normalize()
    }

    /// What `random_unit_disk_point` may return: an accepted candidate, or
    /// the centre of the disc.
    pub open spec fn is_disc_sample(self) -> bool {
        self == Vec3::spec_zero() || self.in_unit_disc()
    }

    /// `v` where it lies on the side of `normal`, else its opposite.
    pub open spec fn spec_toward(v: Vec3, normal: Vec3) -> Vec3 {
        if v.spec_dot(normal)@ > 0 {
            v
        } else {
            v.spec_neg()
        }
    }

    /// The direction of a ray of unit direction `uv` after it has entered a
    /// surface with normal `n`, by Snell's law: the part across the normal is
    /// `ratio * (uv + cos n)`, and the part along it restores the length.
    pub open spec fn spec_refract(uv: Vec3, n: Vec3, ratio: Scalar) -> Vec3 {
        let cos_theta = uv.spec_neg().spec_dot(n).spec_min(Scalar::spec_one());
        let across = uv.spec_add(n.spec_scale(cos_theta)).spec_scale(ratio);
        let along = n.spec_scale(
            Scalar::spec_one().spec_sub(across.spec_magnitude()).spec_abs().spec_sqrt().spec_neg(),
        );
        across.spec_add(along)
    }

    /// The normalized candidate where rejection sampling for the unit ball
    /// accepts it, that is where its squared length is below one.
    pub fn unit_from_candidate(candidate: &Vec3) -> (r: Option<Vec3>)
        ensures
            r == (if candidate.spec_magnitude()@ < scale() {
                Some(candidate.spec_normalize())
            } else {
                None
            }),
    {
        if candidate.magnitude().lt(Scalar::one()) {
            Some(candidate.normalize())
        } else {
            None
        }
    }

    /// A random direction: candidates are drawn from the cube `[-1, 1]^3`
    /// until one falls inside the unit ball, and that one is normalized.
    /// After `MAX_DRAWS` candidates the unit vector along the first axis is
    /// returned instead.
    pub fn random_unit_sphere_vector() -> (r: Vec3)
        ensures
            r.is_unit_sample(),
    {
        let low: Scalar = Scalar::from_int(-1);
        let high: Scalar = Scalar::one();
        let mut draws: u32 = 0;
        while draws < MAX_DRAWS
            invariant
                low == Scalar::spec_from_int(-1),
                high == Scalar::spec_one(),
                low@ <= high@,
            decreases MAX_DRAWS - draws,
        {
            let candidate: Vec3 = Vec3::random_in_range(low, high);
            match Vec3::unit_from_candidate(&candidate) {
                Some(unit) => {
                    assert(candidate.in_unit_ball());
                    return unit;
                },
                None => {},
            }
            draws += 1;
        }
        Vec3 { x: Scalar::one(), y: Scalar::zero(), z: Scalar::zero() }
    }

    /// A random point of the unit disc in the plane `z = 0`: candidates are
    /// drawn from the square `[-1, 1]^2` until one falls inside the disc.
    /// After `MAX_DRAWS` candidates the centre is returned instead.
    pub fn random_unit_disk_point() -> (r: Vec3)
        ensures
            r.is_disc_sample(),
    {
        let low: Scalar = Scalar::from_int(-1);
        let high: Scalar = Scalar::one();
        let mut draws: u32 = 0;
        while draws < MAX_DRAWS
            invariant
                low == Scalar::spec_from_int(-1),
                high == Scalar::spec_one(),
                low@ <= 0 <= high@,
            decreases MAX_DRAWS - draws,
        {
            let candidate: Vec3 = Vec3 {
                x: random_number_in_range(low, high),
                y: random_number_in_range(low, high),
                z: Scalar::zero(),
            };
            if candidate.magnitude().lt(Scalar::one()) {
                return candidate;
            }
            draws += 1;
        }
        Vec3::zero()
    }

    /// `v` where it lies on the side of `normal`, else its opposite.
    pub fn toward(v: Vec3, normal: &Vec3) -> (r: Vec3)
        ensures
            r == Vec3::spec_toward(v, *normal),
            0 <= r.spec_dot(*normal)@,
    {
        proof {
            use_type_invariant(&v.x);
            use_type_invariant(&v.y);
            use_type_invariant(&v.z);
            lemma_wf(v.x);
            lemma_wf(v.y);
            lemma_wf(v.z);
            lemma_neg_dot(v, *normal);
        }
        if dot(&v, normal).gt(Scalar::zero()) {
            v
        } else {
            v.neg()
        }
    }

    /// A random direction in the hemisphere around `normal`: a random
    /// direction, turned around where it points away from `normal`.
    pub fn random_surface_hemisphere_vector(normal: &Vec3) -> (r: Vec3)
        ensures
            exists|u: Vec3| #[trigger] u.is_unit_sample() && r == Vec3::spec_toward(u, *normal),
            0 <= r.spec_dot(*normal)@,
    {
        let random_vector: Vec3 = Vec3::random_unit_sphere_vector();
        Vec3::toward(random_vector, normal)
    }

    /// A random vector with every component in `[0, 1)`.
    pub fn random() -> (r: Vec3)
        ensures
            r.in_unit_box(),
    {
        Vec3 { x: random_number(), y: random_number(), z: random_number() }
    }

    /// A random vector with every component in `[min, max]`.
    pub fn random_in_range(min: Scalar, max: Scalar) -> (r: Vec3)
        requires
            min@ <= max@,
        ensures
            r.in_box(min, max),
    {
        Vec3 {
            x: random_number_in_range(min, max),
            y: random_number_in_range(min, max),
            z: random_number_in_range(min, max),
        }
    }

    /// The direction of a ray of unit direction `uv` after it has entered a
    /// surface with normal `n`, where `etai_over_etat` is the ratio of the
    /// refractive indices.
    pub fn refract(uv: &Vec3, n: &Vec3, etai_over_etat: Scalar) -> (r: Vec3)
        ensures
            r == Vec3::spec_refract(*uv, *n, etai_over_etat),
    {
        let cos_theta: Scalar = dot(&uv.neg(), n).min(Scalar::one());
        let r_out_perp: Vec3 = etai_over_etat * (*uv + cos_theta * *n);
        let r_out_parallel: Vec3 = (Scalar::one() - r_out_perp.magnitude()).abs().sqrt().neg() * *n;
        r_out_perp + r_out_parallel
    }
}

/// The view of a dot product, written out over the raw components.
pub proof fn lemma_dot_view(a: Vec3, b: Vec3)
    ensures
        a.spec_dot(b)@ == crate::scalar::sat(
            crate::scalar::sat(fx_mul(a.x@, b.x@) + fx_mul(a.y@, b.y@)) + fx_mul(a.z@, b.z@),
        ),
{
    broadcast use group_scalar;

    lemma_mul_range(a.x@, b.x@);
    lemma_mul_range(a.y@, b.y@);
    lemma_mul_range(a.z@, b.z@);
}

/// The dot product with the opposite of a vector is the opposite of the dot
/// product.
pub proof fn lemma_dot_neg(d: Vec3, n: Vec3)
    requires
        n.wf(),
    ensures
        d.spec_dot(n.spec_neg())@ == -d.spec_dot(n)@,
{
    broadcast use group_scalar;

    lemma_dot_view(d, n);
    lemma_dot_view(d, n.spec_neg());
    lemma_mul_neg(d.x@, n.x@);
    lemma_mul_neg(d.y@, n.y@);
    lemma_mul_neg(d.z@, n.z@);
    let p = fx_mul(d.x@, n.x@);
    let q = fx_mul(d.y@, n.y@);
    lemma_sat_odd(p + q);
    lemma_sat_odd(crate::scalar::sat(p + q) + fx_mul(d.z@, n.z@));
}

/// The dot product of the opposite of a vector is the opposite of the dot
/// product.
pub proof fn lemma_neg_dot(v: Vec3, n: Vec3)
    requires
        v.wf(),
    ensures
        v.spec_neg().spec_dot(n)@ == -v.spec_dot(n)@,
{
    broadcast use group_scalar;

    lemma_dot_view(v, n);
    lemma_dot_view(v.spec_neg(), n);
    lemma_mul_neg(v.x@, n.x@);
    lemma_mul_neg(v.y@, n.y@);
    lemma_mul_neg(v.z@, n.z@);
    let p = fx_mul(v.x@, n.x@);
    let q = fx_mul(v.y@, n.y@);
    lemma_sat_odd(p + q);
    lemma_sat_odd(crate::scalar::sat(p + q) + fx_mul(v.z@, n.z@));
}

/// No component of a normalized vector exceeds one in magnitude.
pub proof fn lemma_normalize_bounded(v: Vec3)
    requires
        v.wf(),
    ensures
        v.spec_normalize().in_box(Scalar::spec_from_int(-1), Scalar::spec_one()),
{
    broadcast use group_scalar;

    let len = fx_hypot3(v.x@, v.y@, v.z@);
    lemma_hypot_dominates(v.x@, v.y@, v.z@);
    if len > 0 {
        lemma_div_fraction(v.x@, len);
        lemma_div_fraction(v.y@, len);
        lemma_div_fraction(v.z@, len);
    }
    assert(v.spec_length()@ == len);
    assert(v.spec_normalize().x@ == fx_div(v.x@, len));
    assert(v.spec_normalize().y@ == fx_div(v.y@, len));
    assert(v.spec_normalize().z@ == fx_div(v.z@, len));
}

/// Sums, differences, opposites, multiples and quotients of vectors are well
/// formed, whatever they are made of.
pub proof fn lemma_results_wf(a: Vec3, b: Vec3, t: Scalar)
    ensures
        a.spec_add(b).wf(),
        a.spec_sub(b).wf(),
        a.spec_neg().wf(),
        a.spec_scale(t).wf(),
        a.spec_shrink(t).wf(),
        a.spec_mul(b).wf(),
{
    broadcast use group_scalar;

    lemma_mul_range(t@, a.x@);
    lemma_mul_range(t@, a.y@);
    lemma_mul_range(t@, a.z@);
    lemma_mul_range(a.x@, b.x@);
    lemma_mul_range(a.y@, b.y@);
    lemma_mul_range(a.z@, b.z@);
    lemma_div_range(a.x@, t@);
    lemma_div_range(a.y@, t@);
    lemma_div_range(a.z@, t@);
}

/// A squared length is not negative.
pub proof fn lemma_magnitude_nonneg(v: Vec3)
    ensures
        0 <= v.spec_magnitude()@,
{
    lemma_dot_view(v, v);
    lemma_mul_self_nonneg(v.x@);
    lemma_mul_self_nonneg(v.y@);
    lemma_mul_self_nonneg(v.z@);
}

impl core::ops::AddAssign for Vec3 {
    /// Adds `rhs` to this vector.
    fn add_assign(&mut self, rhs: Vec3)
        ensures
            *final(self) == old(self).spec_add(rhs),
    {
        self.x = self.x + rhs.x;
        self.y = self.y + rhs.y;
        self.z = self.z + rhs.z;
    }
}

impl core::ops::SubAssign for Vec3 {
    /// Subtracts `rhs` from this vector.
    fn sub_assign(&mut self, rhs: Vec3)
        ensures
            *final(self) == old(self).spec_sub(rhs),
    {
        self.x = self.x - rhs.x;
        self.y = self.y - rhs.y;
        self.z = self.z - rhs.z;
    }
}

impl core::ops::MulAssign<Scalar> for Vec3 {
    /// Scales this vector by `t`.
    fn mul_assign(&mut self, t: Scalar)
        ensures
            *final(self) == old(self).spec_scale(t),
    {
        self.x = t * self.x;
        self.y = t * self.y;
        self.z = t * self.z;
    }
}

impl core::ops::DivAssign<Scalar> for Vec3 {
    /// Scales this vector by the reciprocal of `t`.
    fn div_assign(&mut self, t: Scalar)
        ensures
            *final(self) == old(self).spec_scale(Scalar::spec_one().spec_div(t)),
    {
        let k: Scalar = Scalar::one() / t;
        self.x = k * self.x;
        self.y = k * self.y;
        self.z = k * self.z;
    }
}

impl Vec3 {
    /// The component at index 0, 1 or 2.
    pub fn index(&self, i: usize) -> (r: &Scalar)
        requires
            i < 3,
        ensures
            *r == self.spec_index(i as int),
    {
        if i == 0 {
            &self.x
        } else if i == 1 {
            &self.y
        } else {
            &self.z
        }
    }

    /// Mutable access to the component at index 0, 1 or 2.
    pub fn index_mut(&mut self, i: usize) -> (r: &mut Scalar)
        requires
            i < 3,
        ensures
            *r == old(self).spec_index(i as int),
            *final(self) == old(self).spec_with(i as int, *final(r)),
    {
        if i == 0 {
            &mut self.x
        } else if i == 1 {
            &mut self.y
        } else {
            &mut self.z
        }
    }
}

} // verus!
