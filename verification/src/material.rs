//! The scattering laws.
//!
//! The set of materials is closed, so it is represented as a tagged variant
//! type, `MaterialKind`, with one dispatch operation; the `Material` trait
//! keeps the shared capability as an interface over the three variants.

mod dielectric;
mod lambertian;
mod metal;

pub use dielectric::Dielectric;
pub use lambertian::Lambertian;
pub use metal::Metal;

use crate::fixed::FX_ONE;
use crate::hit::Collision;
use crate::ray::Ray;
use crate::vec3::Vec3;
use vstd::prelude::*;

verus! {

/// The outcomes a material's scattering law admits for a hit, whatever
/// its internal random draws were: a diffuse surface always scatters the
/// normal plus a normalised unit-ball point (or, at the degenerate
/// fallback, the normal itself), carrying its albedo; a metallic or
/// dielectric outcome is what `spec_scatter_with` gives on some admitted
/// draw.  Opaque, so that callers carry the fact as one atom; reason
/// about it through `reveal`.
#[verifier::opaque]
pub open spec fn spec_scatter_possible(
    m: MaterialKind,
    ray: Ray,
    collision: Collision,
    out: Option<(Vec3, Ray)>,
) -> bool {
    match m {
        MaterialKind::Lambertian(l) => out matches Some(p) && p.0 == l.albedo && p.1.origin
            == collision.position && (collision.normal != Vec3::spec_zero() ==> p.1.delta
            != Vec3::spec_zero()) && (p.1.delta == collision.normal || exists|s: Vec3|
            s.spec_length_squared() < FX_ONE && p.1.delta
                == #[trigger] collision.normal.spec_add(s.spec_normalize())),
        MaterialKind::Metal(mm) => exists|s: Vec3|
            s.spec_length_squared() < FX_ONE && out == #[trigger] mm.spec_scatter_with(
                ray,
                collision,
                s,
            ),
        MaterialKind::Dielectric(d) => exists|u: i64|
            0 <= u < FX_ONE && out == #[trigger] d.spec_scatter_with(ray, collision, u),
    }
}

/// The capability shared by every scattering law: given an incoming ray
/// and a hit record, optionally produce an attenuation colour and an
/// outgoing ray.  The exact contracts live on the inherent `scatter`
/// methods of the three variants.
pub trait Material {
    fn scatter(&self, ray: &Ray, collision: &Collision) -> Option<(Vec3, Ray)>;
}

/// One of the three scattering laws, as a value.
#[derive(Clone, Copy, Debug, PartialEq, Eq, Structural)]
pub enum MaterialKind {
    Lambertian(Lambertian),
    Metal(Metal),
    Dielectric(Dielectric),
}

impl MaterialKind {
    /// Parameter ranges under which the law is meaningful: a dielectric
    /// needs a positive refractive index; the other two laws accept any
    /// parameters.
    pub open spec fn wf(self) -> bool {
        match self {
            MaterialKind::Lambertian(_) => true,
            MaterialKind::Metal(_) => true,
            MaterialKind::Dielectric(d) => d.refractive_index > 0,
        }
    }

    /// Dispatch to the variant's scattering law.  Whatever random draws the
    /// law makes internally, the result is one the variant's law admits
    /// (`spec_scatter_possible`): a scattered ray always starts at the hit
    /// position, and only the metallic law can absorb.
    pub fn scatter(&self, ray: &Ray, collision: &Collision) -> (r: Option<(Vec3, Ray)>)
        requires
            self.wf(),
        ensures
            spec_scatter_possible(*self, *ray, *collision, r),
            r matches Some(p) ==> p.1.origin == collision.position,
            self matches MaterialKind::Lambertian(_) ==> r is Some,
            self matches MaterialKind::Dielectric(_) ==> (r is Some && (r matches Some(p) ==> p.0
                == Vec3::spec_one())),
    {
        proof {
            reveal(spec_scatter_possible);
        }
        match self {
            MaterialKind::Lambertian(m) => m.scatter(ray, collision),
            MaterialKind::Metal(m) => m.scatter(ray, collision),
            MaterialKind::Dielectric(m) => m.scatter(ray, collision),
        }
    }
}

impl Material for MaterialKind {
    fn scatter(&self, ray: &Ray, collision: &Collision) -> Option<(Vec3, Ray)> {
        if !self.is_wf() {
            return None;
        }
        MaterialKind::scatter(self, ray, collision)
    }
}

impl MaterialKind {
    /// Run-time counterpart of `wf`, so that unverified callers can check
    /// the parameter ranges before dispatching.
    pub fn is_wf(&self) -> (b: bool)
        ensures
            b == self.wf(),
    {
        match self {
            MaterialKind::Lambertian(_) => true,
            MaterialKind::Metal(_) => true,
            MaterialKind::Dielectric(d) => d.refractive_index > 0,
        }
    }
}

} // verus!
