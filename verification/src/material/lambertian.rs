//! The diffuse (Lambertian) scattering law.

use super::Material;
use crate::fixed::FX_ONE;
use crate::hit::Collision;
use crate::ray::Ray;
use crate::vec3::Vec3;
use std::sync::Arc;
use vstd::prelude::*;

verus! {

/// A diffuse surface with a base reflectance colour.
#[derive(Clone, Copy, Debug, PartialEq, Eq, Structural)]
pub struct Lambertian {
    pub albedo: Vec3,
}

impl Lambertian {
    /// Build a diffuse material from its albedo.
    pub fn new(albedo: Vec3) -> (r: Lambertian)
        ensures
            r == (Lambertian { albedo }),
    {
        Lambertian { albedo }
    }

    /// Build a diffuse material behind a shared reference.
    pub fn new_arc(albedo: Vec3) -> (r: Arc<Lambertian>)
        ensures
            r == (Lambertian { albedo }),
    {
        Arc::new(Lambertian::new(albedo))
    }

    /// Diffuse scattering: the outgoing direction is the surface normal
    /// plus a random unit vector, redrawn while it cancels the normal.
    /// The draw is capped so that termination is provable; if every draw
    /// degenerates the normal itself is used, which the cap makes
    /// vanishingly rare.  Diffuse surfaces never absorb: the result is
    /// always a scattered ray carrying the albedo, and its direction is
    /// nonzero whenever the hit normal is.
    pub fn scatter(&self, ray: &Ray, collision: &Collision) -> (r: Option<(Vec3, Ray)>)
        ensures
            r is Some,
            r matches Some(p) ==> p.0 == self.albedo,
            r matches Some(p) ==> p.1.origin == collision.position,
            collision.normal != Vec3::spec_zero() ==> (r matches Some(p)
                && p.1.delta != Vec3::spec_zero()),
            r matches Some(p) ==> (p.1.delta == collision.normal || exists|s: Vec3|
                s.spec_length_squared() < FX_ONE && p.1.delta
                    == #[trigger] collision.normal.spec_add(s.spec_normalize())),
    {
        let mut scatter_direction: Vec3 = collision.normal;
        let mut done: bool = false;
        let mut i: u64 = 0;
        let ghost mut witness: Vec3 = Vec3::spec_zero();
        while !done && i < 64
            invariant
                done ==> scatter_direction != Vec3::spec_zero()
                    && witness.spec_length_squared() < FX_ONE && scatter_direction
                    == collision.normal.spec_add(witness.spec_normalize()),
                !done ==> scatter_direction == collision.normal,
            decreases 64 - i,
        {
            let sample = Vec3::random_in_unit_sphere();
            let candidate = collision.normal.add(sample.normalize());
            if !(candidate == Vec3::zero()) {
                scatter_direction = candidate;
                done = true;
                proof {
                    witness = sample;
                }
            }
            i = i + 1;
        }
        proof {
            if done {
                assert(witness.spec_length_squared() < FX_ONE && scatter_direction
                    == collision.normal.spec_add(witness.spec_normalize()));
            }
        }
        let scattered_ray = Ray::new(collision.position, scatter_direction);
        Some((self.albedo, scattered_ray))
    }
}

impl Material for Lambertian {
    fn scatter(&self, ray: &Ray, collision: &Collision) -> Option<(Vec3, Ray)> {
        Lambertian::scatter(self, ray, collision)
    }
}

} // verus!
