//! The metallic (specular with fuzz) scattering law.

use super::Material;
use crate::fixed::FX_ONE;
use crate::hit::Collision;
use crate::ray::Ray;
use crate::vec3::Vec3;
use std::sync::Arc;
use vstd::prelude::*;

verus! {

/// A metallic surface: mirror reflection, perturbed by `fuzziness`.
#[derive(Clone, Copy, Debug, PartialEq, Eq, Structural)]
pub struct Metal {
    pub albedo: Vec3,
    pub fuzziness: i64,
}

impl Metal {
    /// Build a metallic material from its albedo and fuzz parameter.
    pub fn new(albedo: Vec3, fuzziness: i64) -> (r: Metal)
        ensures
            r == (Metal { albedo, fuzziness }),
    {
        Metal { albedo, fuzziness }
    }

    /// Build a metallic material behind a shared reference.
    pub fn new_arc(albedo: Vec3, fuzziness: i64) -> (r: Arc<Metal>)
        ensures
            r == (Metal { albedo, fuzziness }),
    {
        Arc::new(Metal::new(albedo, fuzziness))
    }

    /// The outgoing direction for a given fuzz sample: the normalised
    /// mirror reflection of the incoming direction, perturbed by the
    /// sample scaled with the fuzz parameter.
    pub open spec fn spec_scatter_direction(self, ray: Ray, collision: Collision, sample: Vec3) -> Vec3 {
        ray.delta.spec_reflect(collision.normal).spec_normalize().spec_add(
            sample.spec_scale(self.fuzziness),
        )
    }

    /// What metallic scattering returns once the fuzz sample is fixed.
    pub open spec fn spec_scatter_with(self, ray: Ray, collision: Collision, sample: Vec3) -> Option<
        (Vec3, Ray),
    > {
        let dir = self.spec_scatter_direction(ray, collision, sample);
        if dir.spec_dot(collision.normal) > 0 {
            Some((self.albedo, Ray { origin: collision.position, delta: dir }))
        } else {
            None
        }
    }

    /// Metallic scattering with the fuzz sample handed in.  The surface
    /// absorbs exactly when the perturbed direction does not point away
    /// from the surface: the result is `None` if and only if the dot
    /// product of the outgoing direction with the normal is not positive.
    pub fn scatter_with(&self, ray: &Ray, collision: &Collision, sample: Vec3) -> (r: Option<
        (Vec3, Ray),
    >)
        ensures
            r == self.spec_scatter_with(*ray, *collision, sample),
            r is Some <==> self.spec_scatter_direction(*ray, *collision, sample).spec_dot(
                collision.normal,
            ) > 0,
            r matches Some(p) ==> p.0 == self.albedo && p.1.origin == collision.position
                && p.1.delta == self.spec_scatter_direction(*ray, *collision, sample),
    {
        let reflection_direction = ray.delta().reflect(collision.normal).normalize();
        let scatter_direction = reflection_direction.add(sample.scale(self.fuzziness));
        let scattered_ray = Ray::new(collision.position, scatter_direction);
        if scattered_ray.delta().dot(collision.normal) > 0 {
            Some((self.albedo, scattered_ray))
        } else {
            None
        }
    }

    /// Metallic scattering: draws the fuzz sample from the unit ball and
    /// defers to `scatter_with`.  Whatever was drawn, a returned ray
    /// starts at the hit position, points away from the surface, and
    /// carries the albedo; and the result is that of `scatter_with` on
    /// some sample from the unit ball.
    pub fn scatter(&self, ray: &Ray, collision: &Collision) -> (r: Option<(Vec3, Ray)>)
        ensures
            r matches Some(p) ==> p.0 == self.albedo && p.1.origin == collision.position
                && p.1.delta.spec_dot(collision.normal) > 0,
            exists|sample: Vec3|
                sample.spec_length_squared() < FX_ONE && r == #[trigger] self.spec_scatter_with(
                    *ray,
                    *collision,
                    sample,
                ),
    {
        let sample = Vec3::random_in_unit_sphere();
        let r = self.scatter_with(ray, collision, sample);
        proof {
            assert(sample.spec_length_squared() < FX_ONE && r == self.spec_scatter_with(
                *ray,
                *collision,
                sample,
            ));
        }
        r
    }
}

impl Material for Metal {
    fn scatter(&self, ray: &Ray, collision: &Collision) -> Option<(Vec3, Ray)> {
        Metal::scatter(self, ray, collision)
    }
}

} // verus!
