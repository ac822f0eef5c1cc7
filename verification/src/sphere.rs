//! Spheres, the sole concrete geometry, and their intersection test.

use crate::fixed::{fx_add, fx_div, fx_mul, fx_neg, fx_sqrt, fx_sub, spec_fx_add, spec_fx_div,
    spec_fx_mul, spec_fx_neg, spec_fx_sqrt, spec_fx_sub};
use crate::hit::{Collision, Face, Hittable};
use crate::material::MaterialKind;
use crate::ray::Ray;
use crate::vec3::Vec3;
use vstd::prelude::*;

verus! {

/// A sphere with a centre, a positive radius, and a material.
#[derive(Clone, Copy, Debug, PartialEq, Eq, Structural)]
pub struct Sphere {
    pub center: Vec3,
    pub material: MaterialKind,
    pub radius: i64,
}

impl Sphere {
    /// A sphere is meaningful when its radius is positive and its material
    /// parameters are in range.
    pub open spec fn spec_wf(self) -> bool {
        self.radius > 0 && self.material.wf()
    }

    /// Build a boxed sphere.
    pub fn new_boxed(center: Vec3, radius: i64, material: MaterialKind) -> (r: Box<Sphere>)
        requires
            radius > 0,
            material.wf(),
        ensures
            *r == (Sphere { center, material, radius }),
    {
        Box::new(Sphere { center, material, radius })
    }

    /// The outward-facing unit normal of the sphere at the point reached
    /// after travelling `t` along `ray`: exactly the quotient
    /// `(position - center) / radius`, which is unit length up to the
    /// rounding of the division and of the intersection parameter the
    /// position was computed from.  The crate states the normal exactly
    /// as this quotient and claims no numeric bound on how far its
    /// length, or the distance from the position to the centre, may
    /// drift from the exact values; the tests check the tolerance on
    /// concrete scenes.
    pub open spec fn spec_outward_normal(self, ray: Ray, t: i64) -> Vec3
        recommends
            self.radius != 0,
    {
        ray.spec_position_at(t).spec_sub(self.center).spec_div_scalar(self.radius)
    }

    /// The collision record reported for a hit at parameter `t`: the
    /// position on the ray, the normal oriented against the ray, and the
    /// face telling which side was struck.
    pub open spec fn spec_collision_at(self, ray: Ray, t: i64) -> Collision
        recommends
            self.radius != 0,
    {
        let position = ray.spec_position_at(t);
        let outward_normal = self.spec_outward_normal(ray, t);
        if ray.delta.spec_dot(outward_normal) < 0 {
            Collision {
                face: Face::Front,
                material: self.material,
                normal: outward_normal,
                position,
                t,
            }
        } else {
            Collision {
                face: Face::Back,
                material: self.material,
                normal: outward_normal.spec_neg(),
                position,
                t,
            }
        }
    }

    /// What the intersection test returns: the quadratic
    /// `a t^2 + 2 half_b t + c = 0` is solved in the fixed-point
    /// arithmetic; a negative discriminant or a degenerate direction
    /// (`a == 0`) is a miss, the smaller root is preferred, and a root
    /// counts only within `[t_min, t_max]`.
    pub open spec fn spec_sphere_hit(self, ray: Ray, t_min: i64, t_max: i64) -> Option<Collision>
        recommends
            self.radius != 0,
    {
        let distance_to_center = ray.origin.spec_sub(self.center);
        let a = ray.delta.spec_length_squared();
        let half_b = distance_to_center.spec_dot(ray.delta);
        let c = spec_fx_sub(
            distance_to_center.spec_length_squared(),
            spec_fx_mul(self.radius, self.radius),
        );
        let discriminant = spec_fx_sub(spec_fx_mul(half_b, half_b), spec_fx_mul(a, c));
        if discriminant < 0 || a == 0 {
            None
        } else {
            let discriminant_sqrt = spec_fx_sqrt(discriminant);
            let root1 = spec_fx_div(spec_fx_sub(spec_fx_neg(half_b), discriminant_sqrt), a);
            let t = if t_min <= root1 && root1 <= t_max {
                root1
            } else {
                spec_fx_div(spec_fx_add(spec_fx_neg(half_b), discriminant_sqrt), a)
            };
            if t_min <= t && t <= t_max {
                Some(self.spec_collision_at(ray, t))
            } else {
                None
            }
        }
    }
}

impl Hittable for Sphere {
    open spec fn wf(&self) -> bool {
        self.spec_wf()
    }

    open spec fn spec_hit(&self, ray: Ray, t_min: i64, t_max: i64) -> Option<Collision> {
        self.spec_sphere_hit(ray, t_min, t_max)
    }

    fn hit(&self, ray: &Ray, t: (i64, i64)) -> (r: Option<Collision>) {
        let (t_min, t_max) = t;
        let distance_to_center = ray.origin().sub(self.center);

        let a = ray.delta().length_squared();
        let half_b = distance_to_center.dot(ray.delta());
        let c = fx_sub(distance_to_center.length_squared(), fx_mul(self.radius, self.radius));

        let discriminant = fx_sub(fx_mul(half_b, half_b), fx_mul(a, c));

        if discriminant < 0 || a == 0 {
            return None;
        }

        // Check both roots (+/- discriminant_sqrt) to see if either lies
        // between t_min and t_max.
        let discriminant_sqrt = fx_sqrt(discriminant);

        let mut candidate_t = fx_div(fx_sub(fx_neg(half_b), discriminant_sqrt), a);

        if candidate_t < t_min || t_max < candidate_t {
            candidate_t = fx_div(fx_add(fx_neg(half_b), discriminant_sqrt), a);
            if candidate_t < t_min || t_max < candidate_t {
                return None;
            }
        }

        let position = ray.position_at(candidate_t);
        let outward_normal = position.sub(self.center).div_scalar(self.radius);

        let (face, normal) = if ray.delta().dot(outward_normal) < 0 {
            (Face::Front, outward_normal)
        } else {
            (Face::Back, outward_normal.neg())
        };

        Some(Collision { face, material: self.material, normal, position, t: candidate_t })
    }
}

/// Everything a reported sphere collision guarantees: the parameter lies
/// in the queried range, the material is the sphere's, the position is the
/// point of the ray at that parameter, and the face is `Front` exactly
/// when the ray approaches against the outward normal, which also fixes
/// the reported normal's orientation.
pub proof fn lemma_sphere_hit_properties(s: Sphere, ray: Ray, t_min: i64, t_max: i64)
    requires
        s.spec_wf(),
    ensures
        s.spec_sphere_hit(ray, t_min, t_max) matches Some(c) ==> {
            &&& t_min <= c.t <= t_max
            &&& c.material == s.material
            &&& c.position == ray.spec_position_at(c.t)
            &&& (c.face == Face::Front <==> ray.delta.spec_dot(s.spec_outward_normal(ray, c.t))
                < 0)
            &&& c.normal == (if c.face == Face::Front {
                s.spec_outward_normal(ray, c.t)
            } else {
                s.spec_outward_normal(ray, c.t).spec_neg()
            })
        },
{
}

} // verus!
