//! Extension capabilities of the vector type, gathered as traits; the
//! contracts live on the inherent methods of `Vec3`.

use crate::color_formatter::MAX_SAMPLES;
use crate::vec3::Vec3;
use vstd::prelude::*;

pub use crate::reflect::ReflectableDVec3;

verus! {

/// The capability of rendering a pixel's colour as text.
pub trait ColorFormat {
    fn format_color(self, samples_per_pixel: u64) -> String
        requires
            1 <= samples_per_pixel <= MAX_SAMPLES,
    ;
}

impl ColorFormat for Vec3 {
    fn format_color(self, samples_per_pixel: u64) -> String {
        Vec3::format_color(self, samples_per_pixel)
    }
}

/// The capability of drawing random vectors: a random colour, a point in
/// the unit disk, a point in the unit ball.
pub trait RandomDVec3: Sized {
    fn random() -> Self;
    fn random_in_unit_circle() -> Self;
    fn random_in_unit_sphere() -> Self;
}

impl RandomDVec3 for Vec3 {
    fn random() -> Self {
        Vec3::random()
    }

    fn random_in_unit_circle() -> Self {
        Vec3::random_in_unit_circle()
    }

    fn random_in_unit_sphere() -> Self {
        Vec3::random_in_unit_sphere()
    }
}

} // verus!
