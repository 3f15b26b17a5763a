//! Decimal text of scalars, vectors, rays and hit records.

use crate::color::{digit_text, push_decimal, spec_decimal, spec_digit};
use crate::ray::Ray;
use crate::scalar::{mag, scale, Scalar, ONE_RAW};
use crate::traceable::HitRecord;
use crate::vector::Vec3;
use vstd::prelude::*;
use vstd::string::StringExecFns;

verus! {

/// Number of digits after the decimal point. Ten digits tell any two
/// scalars apart.
pub const FRACTION_DIGITS: usize = 10;

/// The first `count` decimal digits of the fraction `frac / 2^32`.
pub open spec fn spec_fraction(frac: nat, count: nat) -> Seq<char>
    decreases count,
{
    if count == 0 {
        Seq::<char>::empty()
    } else {
        seq![spec_digit((frac * 10 / (scale() as nat)) as int)] + spec_fraction(
            frac * 10 % (scale() as nat),
            (count - 1) as nat,
        )
    }
}

/// The decimal numeral of the scalar with the raw value `raw`: a minus sign
/// where it is negative, the whole part, a point, and the first ten digits of
/// the fraction.
pub open spec fn spec_scalar_text(raw: int) -> Seq<char> {
    let sign = if raw < 0 {
        seq!['-']
    } else {
        Seq::<char>::empty()
    };
    sign + spec_decimal((mag(raw) / scale()) as nat) + seq!['.'] + spec_fraction(
        (mag(raw) % scale()) as nat,
        FRACTION_DIGITS as nat,
    )
}

/// The text of a vector: its three components, separated by blanks.
pub open spec fn spec_vector_text(v: Vec3) -> Seq<char> {
    spec_scalar_text(v.x@) + seq![' '] + spec_scalar_text(v.y@) + seq![' '] + spec_scalar_text(
        v.z@,
    )
}

/// The text of a ray: its origin and its direction.
pub open spec fn spec_ray_text(ray: Ray) -> Seq<char> {
    "Ray(origin: "@ + spec_vector_text(ray.origin) + ", direction: "@ + spec_vector_text(
        ray.direction,
    ) + ")"@
}

/// The text of a truth value.
pub open spec fn spec_bool_text(b: bool) -> Seq<char> {
    if b {
        "true"@
    } else {
        "false"@
    }
}

/// The text of a hit record: its point, normal, parameter and side.
pub open spec fn spec_record_text(record: HitRecord) -> Seq<char> {
    "HitRecord { point: "@ + spec_vector_text(record.point) + ", normal: "@ + spec_vector_text(
        record.normal,
    ) + ", parameter: "@ + spec_scalar_text(record.parameter@) + ", ray_faces_outside: "@
        + spec_bool_text(record.ray_faces_outside) + " }"@
}

/// Appends the first ten decimal digits of the fraction `frac / 2^32` to
/// `out`.
fn push_fraction(out: &mut String, frac: u64)
    requires
        frac < scale(),
    ensures
        final(out)@ == old(out)@ + spec_fraction(frac as nat, FRACTION_DIGITS as nat),
{
    let mut rest: u64 = frac;
    let mut done: usize = 0;
    assert(out@ + spec_fraction(rest as nat, FRACTION_DIGITS as nat) =~= old(out)@ + spec_fraction(
        frac as nat,
        FRACTION_DIGITS as nat,
    ));
    while done < FRACTION_DIGITS
        invariant
            done <= FRACTION_DIGITS,
            rest < scale(),
            out@ + spec_fraction(rest as nat, (FRACTION_DIGITS - done) as nat) == old(out)@
                + spec_fraction(frac as nat, FRACTION_DIGITS as nat),
        decreases FRACTION_DIGITS - done,
    {
        let ghost before = out@;
        let ghost left = (FRACTION_DIGITS - done) as nat;
        let scaled: u64 = rest * 10;
        let digit: u64 = scaled / (ONE_RAW as u64);
        let next: u64 = scaled % (ONE_RAW as u64);
        out.append(digit_text(digit as u8));
        proof {
            assert(spec_fraction(rest as nat, left) == seq![spec_digit(digit as int)]
                + spec_fraction(next as nat, (left - 1) as nat));
            assert(out@ + spec_fraction(next as nat, (left - 1) as nat) =~= before + spec_fraction(
                rest as nat,
                left,
            ));
        }
        rest = next;
        done += 1;
    }
    assert(out@ + spec_fraction(rest as nat, 0) =~= out@);
}

impl Scalar {
    /// Appends the decimal numeral of this scalar to `out`.
    pub fn push_text(&self, out: &mut String)
        ensures
            final(out)@ == old(out)@ + spec_scalar_text(self@),
    {
        proof {
            reveal_strlit("-");
            reveal_strlit(".");
        }
        let raw: i64 = self.raw();
        let size: u64 = if raw < 0 {
            out.append("-");
            (-raw) as u64
        } else {
            raw as u64
        };
        push_decimal(out, (size / (ONE_RAW as u64)) as usize);
        out.append(".");
        push_fraction(out, size % (ONE_RAW as u64));
        assert(final(out)@ =~= old(out)@ + spec_scalar_text(self@));
    }

    /// The decimal numeral of this scalar, with ten digits after the point.
    pub fn to_text(&self) -> (text: String)
        ensures
            text@ == spec_scalar_text(self@),
    {
        let mut text: String = String::new();
        self.push_text(&mut text);
        assert(text@ =~= spec_scalar_text(self@));
        text
    }
}

impl Vec3 {
    /// Appends the text of this vector to `out`.
    pub fn push_text(&self, out: &mut String)
        ensures
            final(out)@ == old(out)@ + spec_vector_text(*self),
    {
        proof {
            reveal_strlit(" ");
        }
        self.x.push_text(out);
        out.append(" ");
        self.y.push_text(out);
        out.append(" ");
        self.z.push_text(out);
        assert(final(out)@ =~= old(out)@ + spec_vector_text(*self));
    }

    /// The text of this vector: its three components, separated by blanks.
    pub fn to_text(&self) -> (text: String)
        ensures
            text@ == spec_vector_text(*self),
    {
        let mut text: String = String::new();
        self.push_text(&mut text);
        assert(text@ =~= spec_vector_text(*self));
        text
    }
}

impl Ray {
    /// The text of this ray: its origin and its direction.
    pub fn to_text(&self) -> (text: String)
        ensures
            text@ == spec_ray_text(*self),
    {
        let mut text: String = String::new();
        text.append("Ray(origin: ");
        self.origin.push_text(&mut text);
        text.append(", direction: ");
        self.direction.push_text(&mut text);
        text.append(")");
        assert(text@ =~= spec_ray_text(*self));
        text
    }
}

impl HitRecord {
    /// The text of this record: its point, normal, parameter and side.
    pub fn to_text(&self) -> (text: String)
        ensures
            text@ == spec_record_text(*self),
    {
        let mut text: String = String::new();
        text.append("HitRecord { point: ");
        self.point.push_text(&mut text);
        text.append(", normal: ");
        self.normal.push_text(&mut text);
        text.append(", parameter: ");
        self.parameter.push_text(&mut text);
        text.append(", ray_faces_outside: ");
        if self.ray_faces_outside {
            text.append("true");
        } else {
            text.append("false");
        }
        text.append(" }");
        assert(text@ =~= spec_record_text(*self));
        text
    }
}

} // verus!
