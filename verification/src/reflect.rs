//! Mirror reflection and Snell refraction, gathered as an interface; the
//! contracts live on the inherent `reflect` and `refract` of `Vec3`.

use crate::vec3::Vec3;
use vstd::prelude::*;

verus! {

/// The capability of reflecting a direction about a surface normal and
/// of refracting it with a given ratio of refractive indices.
pub trait ReflectableDVec3 {
    fn reflect(self, normal: Vec3) -> Vec3;

    fn refract(self, normal: Vec3, eta_over_eta_prime: i64) -> Vec3;
}

impl ReflectableDVec3 for Vec3 {
    fn reflect(self, normal: Vec3) -> Vec3 {
        Vec3::reflect(self, normal)
    }

    fn refract(self, normal: Vec3, eta_over_eta_prime: i64) -> Vec3 {
        Vec3::refract(self, normal, eta_over_eta_prime)
    }
}

} // verus!
