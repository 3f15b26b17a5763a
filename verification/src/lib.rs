//! A Monte Carlo ray tracer on fixed-point arithmetic.
//!
//! Spheres with diffuse, reflective and refractive surfaces are rendered by
//! sampling light paths through every pixel of a perspective camera. All
//! arithmetic is done on [`scalar::Scalar`], a saturating fixed-point number:
//! every operation is total, and its result is pinned down to the last bit by
//! a formula over the integers.
//!
//! The modules, leaves first:
//!
//! - [`scalar`]: fixed-point numbers and their algebra;
//! - [`rt_math`]: angles, trigonometric series and random draws;
//! - [`vector`]: vectors, points and colours;
//! - [`ray`], [`interval`]: rays and ranges of ray parameters;
//! - [`traceable`], [`sphere`]: hit records, spheres and scenes;
//! - [`material`], [`lambert`], [`metal`], [`dielectric`]: surfaces;
//! - [`color`], [`text`]: pixels, the plain PPM format and decimal text;
//! - [`camera`]: primary rays, the light-transport estimator and rendering.

pub mod scalar;
pub mod rt_math;
pub mod vector;
pub mod ray;
pub mod interval;
pub mod traceable;
pub mod sphere;
pub mod material;
pub mod lambert;
pub mod metal;
pub mod dielectric;
pub mod color;
pub mod text;
pub mod camera;
