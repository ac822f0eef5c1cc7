//! Rays: an origin and a direction, parametrising the line
//! `origin + t * delta`.

use crate::fixed::{lemma_fx_mul_additive, spec_fx_add, FX_ONE};
use crate::vec3::Vec3;
use vstd::prelude::*;

verus! {

/// A ray, with `delta` the (not necessarily unit) direction.
#[derive(Clone, Copy, Debug, PartialEq, Eq, Structural)]
pub struct Ray {
    pub origin: Vec3,
    pub delta: Vec3,
}

impl Ray {
    /// Build a ray from an origin and a direction.
    pub fn new(origin: Vec3, delta: Vec3) -> (r: Ray)
        ensures
            r == (Ray { origin, delta }),
    {
        Ray { origin, delta }
    }

    /// The direction of the ray.
    pub fn delta(&self) -> (r: Vec3)
        ensures
            r == self.delta,
    {
        self.delta
    }

    /// The origin of the ray.
    pub fn origin(&self) -> (r: Vec3)
        ensures
            r == self.origin,
    {
        self.origin
    }

    /// What `position_at` returns: the origin translated by `t` times the
    /// direction.
    pub open spec fn spec_position_at(self, t: i64) -> Vec3 {
        self.origin.spec_add(self.delta.spec_scale(t))
    }

    /// The point reached after travelling `t` along the ray.
    pub fn position_at(&self, t: i64) -> (r: Vec3)
        ensures
            r == self.spec_position_at(t),
    {
        self.origin.add(self.delta.scale(t))
    }
}

/// At parameter zero a ray is exactly at its origin.
pub proof fn lemma_position_at_zero(r: Ray)
    ensures
        r.spec_position_at(0) == r.origin,
{
}

/// `position_at` is affine in `t`: it is the constant `origin` translated
/// by the `t`-scaled direction, for every ray and every parameter.
pub proof fn lemma_position_at_affine(r: Ray, t: i64)
    ensures
        r.spec_position_at(t) == r.origin.spec_add(r.delta.spec_scale(t)),
{
}

/// Where the arithmetic is exact — whole-number parameters, with every
/// coordinate far from the representation's bounds — `position_at` is
/// affine in `t` in the strong sense: stepping the parameter by `t2`
/// translates the point by the direction scaled with `t2`.
pub proof fn lemma_position_at_affine_step(r: Ray, t1: i64, t2: i64)
    requires
        t1 % FX_ONE == 0,
        t2 % FX_ONE == 0,
        -0x100000000000 <= t1 <= 0x100000000000,
        -0x100000000000 <= t2 <= 0x100000000000,
        -0x40000000 <= r.delta.x <= 0x40000000,
        -0x40000000 <= r.delta.y <= 0x40000000,
        -0x40000000 <= r.delta.z <= 0x40000000,
        -0x1000000000000000 <= r.origin.x <= 0x1000000000000000,
        -0x1000000000000000 <= r.origin.y <= 0x1000000000000000,
        -0x1000000000000000 <= r.origin.z <= 0x1000000000000000,
    ensures
        r.spec_position_at(spec_fx_add(t1, t2)) == r.spec_position_at(t1).spec_add(
            r.delta.spec_scale(t2),
        ),
{
    let k1 = (t1 / FX_ONE) as int;
    let k2 = (t2 / FX_ONE) as int;
    vstd::arithmetic::div_mod::lemma_fundamental_div_mod(t1 as int, FX_ONE as int);
    vstd::arithmetic::div_mod::lemma_fundamental_div_mod(t2 as int, FX_ONE as int);
    assert(-0x10000000 <= k1 <= 0x10000000 && -0x10000000 <= k2 <= 0x10000000);
    lemma_component_step(r.origin.x, r.delta.x, t1, t2, k1, k2);
    lemma_component_step(r.origin.y, r.delta.y, t1, t2, k1, k2);
    lemma_component_step(r.origin.z, r.delta.z, t1, t2, k1, k2);
}

/// One coordinate of the affine step: with everything in range the
/// saturation guards vanish and scaling distributes over the parameter
/// sum.
proof fn lemma_component_step(o: i64, c: i64, t1: i64, t2: i64, k1: int, k2: int)
    requires
        t1 % FX_ONE == 0,
        t2 % FX_ONE == 0,
        k1 == t1 / FX_ONE,
        k2 == t2 / FX_ONE,
        -0x10000000 <= k1 <= 0x10000000,
        -0x10000000 <= k2 <= 0x10000000,
        -0x40000000 <= c <= 0x40000000,
        -0x1000000000000000 <= o <= 0x1000000000000000,
    ensures
        spec_fx_add(o, crate::fixed::spec_fx_mul(spec_fx_add(t1, t2), c)) == spec_fx_add(
            spec_fx_add(o, crate::fixed::spec_fx_mul(t1, c)),
            crate::fixed::spec_fx_mul(t2, c),
        ),
{
    assert(-0x400000000000000 <= k1 * c <= 0x400000000000000 && -0x400000000000000 <= k2 * c
        <= 0x400000000000000) by (nonlinear_arith)
        requires
            -0x10000000 <= k1 <= 0x10000000,
            -0x10000000 <= k2 <= 0x10000000,
            -0x40000000 <= c <= 0x40000000,
    ;
    lemma_fx_mul_additive(t1, t2, c);
    crate::fixed::lemma_fx_mul_integral(t1, c);
    crate::fixed::lemma_fx_mul_integral(t2, c);
}

} // verus!
