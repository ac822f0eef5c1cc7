//! The dielectric (refractive) scattering law.

use super::Material;
use crate::fixed::{
    fx_add, fx_div, fx_max, fx_min, fx_mul, fx_sqrt, fx_sub, spec_fx_add, spec_fx_div, spec_fx_max,
    spec_fx_min, spec_fx_mul, spec_fx_sqrt, spec_fx_sub, FX_ONE,
};
use crate::hit::{Collision, Face};
use crate::random::random_scalar;
use crate::ray::Ray;
use crate::vec3::Vec3;
use std::sync::Arc;
use vstd::prelude::*;

verus! {

/// A dielectric surface: refracts where it can, reflects where it must,
/// and chooses between the two by the Schlick reflectance otherwise.
#[derive(Clone, Copy, Debug, PartialEq, Eq, Structural)]
pub struct Dielectric {
    pub refractive_index: i64,
}

/// What the fifth power of a scalar returns.
pub open spec fn spec_fx_pow5(x: i64) -> i64 {
    spec_fx_mul(spec_fx_mul(spec_fx_mul(spec_fx_mul(x, x), x), x), x)
}

/// Fifth power of a scalar.
pub fn fx_pow5(x: i64) -> (r: i64)
    ensures
        r == spec_fx_pow5(x),
{
    fx_mul(fx_mul(fx_mul(fx_mul(x, x), x), x), x)
}

/// What the Schlick reflectance approximation returns:
/// `r0 + (1 - r0) * (1 - cos_theta)^5` with `r0 = ((1 - n) / (1 + n))^2`.
pub open spec fn spec_reflectance(cos_theta: i64, refractive_index: i64) -> i64
    recommends
        refractive_index >= 0,
{
    let r0 = spec_fx_div(
        spec_fx_sub(FX_ONE, refractive_index),
        spec_fx_add(FX_ONE, refractive_index),
    );
    let r0_squared = spec_fx_mul(r0, r0);
    spec_fx_add(
        r0_squared,
        spec_fx_mul(spec_fx_sub(FX_ONE, r0_squared), spec_fx_pow5(spec_fx_sub(FX_ONE, cos_theta))),
    )
}

/// At normal incidence (`cos_theta` exactly one) the Schlick reflectance
/// is exactly `((1 - n) / (1 + n))^2`: the fifth-power term vanishes.
pub proof fn lemma_reflectance_normal_incidence(refractive_index: i64)
    requires
        refractive_index >= 0,
    ensures
        spec_reflectance(FX_ONE, refractive_index) == ({
            let r0 = spec_fx_div(
                spec_fx_sub(FX_ONE, refractive_index),
                spec_fx_add(FX_ONE, refractive_index),
            );
            spec_fx_mul(r0, r0)
        }),
{
    let r0 = spec_fx_div(
        spec_fx_sub(FX_ONE, refractive_index),
        spec_fx_add(FX_ONE, refractive_index),
    );
    let r0_squared = spec_fx_mul(r0, r0);
    assert(spec_fx_sub(FX_ONE, FX_ONE) == 0);
    assert(spec_fx_pow5(0) == 0);
    crate::fixed::lemma_fx_mul_zero(spec_fx_sub(FX_ONE, r0_squared));
    assert(spec_fx_add(r0_squared, 0) == r0_squared);
}

impl Dielectric {
    /// Build a dielectric material from its refractive index.
    pub fn new(refractive_index: i64) -> (r: Dielectric)
        ensures
            r == (Dielectric { refractive_index }),
    {
        Dielectric { refractive_index }
    }

    /// Build a dielectric material behind a shared reference.
    pub fn new_arc(refractive_index: i64) -> (r: Arc<Dielectric>)
        ensures
            r == (Dielectric { refractive_index }),
    {
        Arc::new(Dielectric::new(refractive_index))
    }

    /// The Schlick approximation of the Fresnel reflection coefficient.
    pub fn reflectance(cos_theta: i64, refractive_index: i64) -> (r: i64)
        requires
            refractive_index >= 0,
        ensures
            r == spec_reflectance(cos_theta, refractive_index),
    {
        let r0 = fx_div(fx_sub(FX_ONE, refractive_index), fx_add(FX_ONE, refractive_index));
        let r0_squared = fx_mul(r0, r0);
        fx_add(
            r0_squared,
            fx_mul(fx_sub(FX_ONE, r0_squared), fx_pow5(fx_sub(FX_ONE, cos_theta))),
        )
    }

    /// The ratio of refractive indices seen by the ray: entering the
    /// medium divides by the index, leaving multiplies by it.
    pub open spec fn spec_refraction_ratio(self, collision: Collision) -> i64
        recommends
            self.refractive_index > 0,
    {
        if collision.face == Face::Front {
            spec_fx_div(FX_ONE, self.refractive_index)
        } else {
            self.refractive_index
        }
    }

    /// What dielectric scattering returns once the reflectance draw `u` is
    /// fixed: the ray reflects on total internal reflection or when `u`
    /// falls below the Schlick reflectance, and refracts otherwise; the
    /// attenuation is always full transmission.
    pub open spec fn spec_scatter_with(self, ray: Ray, collision: Collision, u: i64) -> Option<
        (Vec3, Ray),
    >
        recommends
            self.refractive_index > 0,
    {
        let refraction_ratio = self.spec_refraction_ratio(collision);
        let unit_delta = ray.delta.spec_normalize();
        let cos_theta = spec_fx_min(unit_delta.spec_dot(collision.normal.spec_neg()), FX_ONE);
        let sin_theta = spec_fx_sqrt(
            spec_fx_max(spec_fx_sub(FX_ONE, spec_fx_mul(cos_theta, cos_theta)), 0),
        );
        let can_not_refract = spec_fx_mul(refraction_ratio, sin_theta) > FX_ONE;
        let will_reflect = u < spec_reflectance(cos_theta, refraction_ratio);
        let new_direction = if can_not_refract || will_reflect {
            unit_delta.spec_reflect(collision.normal)
        } else {
            unit_delta.spec_refract(collision.normal, refraction_ratio)
        };
        Some((Vec3::spec_one(), Ray { origin: collision.position, delta: new_direction }))
    }

    /// Dielectric scattering with the reflectance draw handed in.
    pub fn scatter_with(&self, ray: &Ray, collision: &Collision, u: i64) -> (r: Option<(Vec3, Ray)>)
        requires
            self.refractive_index > 0,
        ensures
            r == self.spec_scatter_with(*ray, *collision, u),
            r matches Some(p) ==> p.0 == Vec3::spec_one() && p.1.origin == collision.position,
            r is Some,
    {
        let refraction_ratio = if collision.face == Face::Front {
            fx_div(FX_ONE, self.refractive_index)
        } else {
            self.refractive_index
        };
        let unit_delta = ray.delta().normalize();
        let cos_theta = fx_min(unit_delta.dot(collision.normal.neg()), FX_ONE);
        let sin_theta = fx_sqrt(fx_max(fx_sub(FX_ONE, fx_mul(cos_theta, cos_theta)), 0));
        let can_not_refract = fx_mul(refraction_ratio, sin_theta) > FX_ONE;
        proof {
            crate::fixed::lemma_fx_div_nonneg(FX_ONE, self.refractive_index);
        }
        let will_reflect = u < Dielectric::reflectance(cos_theta, refraction_ratio);
        let new_direction = if can_not_refract || will_reflect {
            unit_delta.reflect(collision.normal)
        } else {
            unit_delta.refract(collision.normal, refraction_ratio)
        };
        let scattered_ray = Ray::new(collision.position, new_direction);
        Some((Vec3::one(), scattered_ray))
    }

    /// Dielectric scattering: draws the reflectance scalar and defers to
    /// `scatter_with`.  A dielectric never absorbs; whatever was drawn the
    /// result is full transmission along a ray from the hit position, and
    /// it is that of `scatter_with` on some draw from `[0, 1)`.
    pub fn scatter(&self, ray: &Ray, collision: &Collision) -> (r: Option<(Vec3, Ray)>)
        requires
            self.refractive_index > 0,
        ensures
            r is Some,
            r matches Some(p) ==> p.0 == Vec3::spec_one() && p.1.origin == collision.position,
            exists|u: i64|
                0 <= u < FX_ONE && r == #[trigger] self.spec_scatter_with(*ray, *collision, u),
    {
        let u = random_scalar();
        let r = self.scatter_with(ray, collision, u);
        proof {
            assert(0 <= u < FX_ONE && r == self.spec_scatter_with(*ray, *collision, u));
        }
        r
    }
}

impl Material for Dielectric {
    fn scatter(&self, ray: &Ray, collision: &Collision) -> Option<(Vec3, Ray)> {
        if !(self.refractive_index > 0) {
            return None;
        }
        Dielectric::scatter(self, ray, collision)
    }
}

} // verus!
