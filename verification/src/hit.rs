//! Hit records and the intersection capability.

use crate::material::MaterialKind;
use crate::ray::Ray;
use crate::vec3::Vec3;
use vstd::prelude::*;

verus! {

/// The result of a successful intersection test.
#[derive(Clone, Copy, Debug, PartialEq, Eq, Structural)]
pub struct Collision {
    pub face: Face,
    pub material: MaterialKind,
    pub normal: Vec3,
    pub position: Vec3,
    pub t: i64,
}

/// Which side of the surface the ray struck: `Front` when it approached
/// from outside, `Back` otherwise.
#[derive(Clone, Copy, Debug, PartialEq, Eq, Structural)]
pub enum Face {
    Back,
    Front,
}

/// An object that can report the nearest ray intersection within a
/// parametric range.  The `t` tuple is `(t_min, t_max)`.  Each implementer
/// also exposes, as the specification function `spec_hit`, exactly what
/// its intersection test returns.
pub trait Hittable {
    /// Conditions under which the intersection test is meaningful (for a
    /// sphere, a positive radius).
    spec fn wf(&self) -> bool;

    /// What `hit` returns.
    spec fn spec_hit(&self, ray: Ray, t_min: i64, t_max: i64) -> Option<Collision>;

    /// The nearest collision along `ray` with parameter in the `t` range,
    /// if there is one.
    fn hit(&self, ray: &Ray, t: (i64, i64)) -> (r: Option<Collision>)
        requires
            self.wf(),
        ensures
            r == self.spec_hit(*ray, t.0, t.1),
    ;
}

} // verus!
