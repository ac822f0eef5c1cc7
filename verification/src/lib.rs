//! A Monte-Carlo path tracer over fixed-point arithmetic.
//!
//! Every geometric and radiometric quantity is a fixed-point scalar: an
//! `i64` counting units of `1 / fixed::FX_ONE`.  The scalar operations and
//! everything built on them (vectors, rays, sphere intersection, the three
//! scattering laws, the camera model and the colour integrator) are verified
//! against exact specifications of that arithmetic.

pub mod camera;
pub mod color_formatter;
pub mod dvec_extensions;
pub mod fixed;
pub mod hit;
pub mod material;
pub mod output;
pub mod random;
pub mod ray;
pub mod reflect;
pub mod sphere;
pub mod vec3;
pub mod world;

use vstd::prelude::*;

verus! {

/// Width of the rendered image in pixels.
pub const IMAGE_WIDTH: u64 = 1024;

/// Height of the rendered image in pixels (16:9 aspect ratio).
pub const IMAGE_HEIGHT: u64 = 576;

/// Recursion budget for the colour integrator.
pub const MAX_DEPTH: u8 = 50;

/// Independent stochastic samples accumulated per pixel.
pub const SAMPLES_PER_PIXEL: u64 = 100;

} // verus!
