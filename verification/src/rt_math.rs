//! Numeric helpers: angle conversion and the random draws behind every
//! stochastic sample.

use crate::scalar::{group_scalar, scale, Scalar};
use rand::Rng;
use vstd::prelude::*;

verus! {

/// Raw value of pi, rounded toward zero.
pub const PI_RAW: i64 = 13493037704;

/// `Rng::gen::<u32>` of the `rand` crate, on the generator that
/// `rand::thread_rng` keeps for the calling thread. It hands back the next 32
/// bits of that generator; nothing is claimed of them.
#[verifier::external_body]
fn thread_bits() -> (bits: u32)
{
    rand::thread_rng().gen::<u32>()
}

/// `Rng::gen_range` of the `rand` crate with an inclusive range of `i64`, on
/// the generator that `rand::thread_rng` keeps for the calling thread. The
/// call panics on an empty range, which the precondition excludes; the value
/// it returns lies within the range, ends included.
#[verifier::external_body]
fn thread_uniform(low: i64, high: i64) -> (r: i64)
    requires
        low <= high,
    ensures
        low <= r <= high,
{
    rand::thread_rng().gen_range(low..=high)
}

/// The number pi.
pub fn pi() -> (r: Scalar)
    ensures
        r@ == PI_RAW,
{
    Scalar::from_raw(PI_RAW)
}

/// The angle of `degrees` degrees in radians: `degrees * pi / 180`.
pub open spec fn spec_degrees_to_radians(degrees: Scalar) -> Scalar {
    degrees.spec_mul(Scalar::make(PI_RAW as int)).spec_div(Scalar::spec_from_int(180))
}

/// Converts an angle from degrees to radians: `degrees * pi / 180`.
pub fn degrees_to_radians(degrees: Scalar) -> (r: Scalar)
    ensures
        r == spec_degrees_to_radians(degrees),
{
    broadcast use group_scalar;

    degrees * pi() / Scalar::from_int(180)
}

/// The scalar in `[0, 1)` whose fraction is the given 32 bits.
pub fn unit_from_bits(bits: u32) -> (r: Scalar)
    ensures
        r@ == bits,
        0 <= r@ < scale(),
{
    Scalar::from_raw(bits as i64)
}

/// A random number in `[0, 1)`, uniform over the 2^32 scalars of that range.
pub fn random_number() -> (r: Scalar)
    ensures
        0 <= r@ < scale(),
{
    unit_from_bits(thread_bits())
}

/// A random number in `[min, max]`, uniform over the scalars of that range.
pub fn random_number_in_range(min: Scalar, max: Scalar) -> (r: Scalar)
    requires
        min@ <= max@,
    ensures
        min@ <= r@ <= max@,
{
    Scalar::from_raw(thread_uniform(min.raw(), max.raw()))
}

/// One step of the nested form of a power series in `x^2`: the value
/// `1 - x2 * inner / divisor`.
pub open spec fn spec_series_step(x2: Scalar, inner: Scalar, divisor: int) -> Scalar {
    Scalar::spec_one().spec_sub(x2.spec_mul(inner).spec_div(Scalar::spec_from_int(divisor)))
}

/// The sine of `x` by its power series up to the term in `x^17`, in the
/// nested form `x (1 - x^2/(2*3) (1 - x^2/(4*5) (...)))`. Within a quarter
/// turn around zero the terms that are left out are smaller than the
/// resolution of a scalar.
pub open spec fn spec_sin(x: Scalar) -> Scalar {
    let x2 = x.spec_mul(x);
    let s8 = spec_series_step(x2, Scalar::spec_one(), 272);
    let s7 = spec_series_step(x2, s8, 210);
    let s6 = spec_series_step(x2, s7, 156);
    let s5 = spec_series_step(x2, s6, 110);
    let s4 = spec_series_step(x2, s5, 72);
    let s3 = spec_series_step(x2, s4, 42);
    let s2 = spec_series_step(x2, s3, 20);
    let s1 = spec_series_step(x2, s2, 6);
    x.spec_mul(s1)
}

/// The cosine of `x` by its power series up to the term in `x^16`, in the
/// nested form `1 - x^2/(1*2) (1 - x^2/(3*4) (...))`.
pub open spec fn spec_cos(x: Scalar) -> Scalar {
    let x2 = x.spec_mul(x);
    let c8 = spec_series_step(x2, Scalar::spec_one(), 240);
    let c7 = spec_series_step(x2, c8, 182);
    let c6 = spec_series_step(x2, c7, 132);
    let c5 = spec_series_step(x2, c6, 90);
    let c4 = spec_series_step(x2, c5, 56);
    let c3 = spec_series_step(x2, c4, 30);
    let c2 = spec_series_step(x2, c3, 12);
    spec_series_step(x2, c2, 2)
}

/// The tangent of `x`: the quotient of `spec_sin` and `spec_cos`.
pub open spec fn spec_tan(x: Scalar) -> Scalar {
    spec_sin(x).spec_div(spec_cos(x))
}

/// One step of the nested form of a power series in `x^2`.
fn series_step(x2: Scalar, inner: Scalar, divisor: i64) -> (r: Scalar)
    ensures
        r == spec_series_step(x2, inner, divisor as int),
{
    Scalar::one() - x2 * inner / Scalar::from_int(divisor)
}

/// The sine of an angle in radians, by its power series; meant for angles
/// of at most a quarter turn.
pub fn sin(x: Scalar) -> (r: Scalar)
    ensures
        r == spec_sin(x),
{
    let x2: Scalar = x * x;
    let s8: Scalar = series_step(x2, Scalar::one(), 272);
    let s7: Scalar = series_step(x2, s8, 210);
    let s6: Scalar = series_step(x2, s7, 156);
    let s5: Scalar = series_step(x2, s6, 110);
    let s4: Scalar = series_step(x2, s5, 72);
    let s3: Scalar = series_step(x2, s4, 42);
    let s2: Scalar = series_step(x2, s3, 20);
    let s1: Scalar = series_step(x2, s2, 6);
    x * s1
}

/// The cosine of an angle in radians, by its power series; meant for angles
/// of at most a quarter turn.
pub fn cos(x: Scalar) -> (r: Scalar)
    ensures
        r == spec_cos(x),
{
    let x2: Scalar = x * x;
    let c8: Scalar = series_step(x2, Scalar::one(), 240);
    let c7: Scalar = series_step(x2, c8, 182);
    let c6: Scalar = series_step(x2, c7, 132);
    let c5: Scalar = series_step(x2, c6, 90);
    let c4: Scalar = series_step(x2, c5, 56);
    let c3: Scalar = series_step(x2, c4, 30);
    let c2: Scalar = series_step(x2, c3, 12);
    series_step(x2, c2, 2)
}

/// The tangent of an angle in radians, as the quotient of sine and cosine;
/// meant for angles below a quarter turn.
pub fn tan(x: Scalar) -> (r: Scalar)
    ensures
        r == spec_tan(x),
{
    sin(x) / cos(x)
}

} // verus!
