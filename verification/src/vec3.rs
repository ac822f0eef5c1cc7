//! Three-component vectors over the fixed-point scalar type.
//!
//! Each executable operation is proved equal to its specification mirror
//! (`spec_add`, `spec_dot`, ...), which states the componentwise scalar
//! arithmetic exactly.

use crate::fixed::{
    fx_abs, fx_add, fx_div, fx_min, fx_mul, fx_neg, fx_sqrt, fx_sub, lemma_fx_square_nonneg,
    spec_fx_abs, spec_fx_add, spec_fx_div, spec_fx_min, spec_fx_mul, spec_fx_neg, spec_fx_sqrt,
    spec_fx_sub, FX_ONE, FX_TWO,
};
use vstd::prelude::*;

verus! {

/// A vector (or colour) of three fixed-point scalars.
#[derive(Clone, Copy, Debug, PartialEq, Eq, Structural)]
pub struct Vec3 {
    pub x: i64,
    pub y: i64,
    pub z: i64,
}

impl Vec3 {
    /// Build a vector from its raw scalar components.
    pub fn new(x: i64, y: i64, z: i64) -> (r: Vec3)
        ensures
            r == (Vec3 { x, y, z }),
    {
        Vec3 { x, y, z }
    }

    /// The zero vector.
    pub open spec fn spec_zero() -> Vec3 {
        Vec3 { x: 0, y: 0, z: 0 }
    }

    /// The zero vector.
    pub fn zero() -> (r: Vec3)
        ensures
            r == Vec3::spec_zero(),
    {
        Vec3 { x: 0, y: 0, z: 0 }
    }

    /// The vector whose components are all the scalar `1.0` (white, as a colour).
    pub open spec fn spec_one() -> Vec3 {
        Vec3 { x: FX_ONE, y: FX_ONE, z: FX_ONE }
    }

    /// The vector whose components are all the scalar `1.0`.
    pub fn one() -> (r: Vec3)
        ensures
            r == Vec3::spec_one(),
    {
        Vec3 { x: FX_ONE, y: FX_ONE, z: FX_ONE }
    }

    /// What componentwise addition returns.
    pub open spec fn spec_add(self, o: Vec3) -> Vec3 {
        Vec3 {
            x: spec_fx_add(self.x, o.x),
            y: spec_fx_add(self.y, o.y),
            z: spec_fx_add(self.z, o.z),
        }
    }

    /// Componentwise addition.
    pub fn add(self, o: Vec3) -> (r: Vec3)
        ensures
            r == self.spec_add(o),
    {
        Vec3 { x: fx_add(self.x, o.x), y: fx_add(self.y, o.y), z: fx_add(self.z, o.z) }
    }

    /// What componentwise subtraction returns.
    pub open spec fn spec_sub(self, o: Vec3) -> Vec3 {
        Vec3 {
            x: spec_fx_sub(self.x, o.x),
            y: spec_fx_sub(self.y, o.y),
            z: spec_fx_sub(self.z, o.z),
        }
    }

    /// Componentwise subtraction.
    pub fn sub(self, o: Vec3) -> (r: Vec3)
        ensures
            r == self.spec_sub(o),
    {
        Vec3 { x: fx_sub(self.x, o.x), y: fx_sub(self.y, o.y), z: fx_sub(self.z, o.z) }
    }

    /// What componentwise negation returns.
    pub open spec fn spec_neg(self) -> Vec3 {
        Vec3 { x: spec_fx_neg(self.x), y: spec_fx_neg(self.y), z: spec_fx_neg(self.z) }
    }

    /// Componentwise negation.
    pub fn neg(self) -> (r: Vec3)
        ensures
            r == self.spec_neg(),
    {
        Vec3 { x: fx_neg(self.x), y: fx_neg(self.y), z: fx_neg(self.z) }
    }

    /// What scaling by a scalar returns.
    pub open spec fn spec_scale(self, s: i64) -> Vec3 {
        Vec3 {
            x: spec_fx_mul(self.x, s),
            y: spec_fx_mul(self.y, s),
            z: spec_fx_mul(self.z, s),
        }
    }

    /// Scale every component by the scalar `s`.
    pub fn scale(self, s: i64) -> (r: Vec3)
        ensures
            r == self.spec_scale(s),
    {
        Vec3 { x: fx_mul(self.x, s), y: fx_mul(self.y, s), z: fx_mul(self.z, s) }
    }

    /// What the componentwise (colour) product returns.
    pub open spec fn spec_mul(self, o: Vec3) -> Vec3 {
        Vec3 {
            x: spec_fx_mul(self.x, o.x),
            y: spec_fx_mul(self.y, o.y),
            z: spec_fx_mul(self.z, o.z),
        }
    }

    /// Componentwise product; this is how attenuation colours combine.
    pub fn mul(self, o: Vec3) -> (r: Vec3)
        ensures
            r == self.spec_mul(o),
    {
        Vec3 { x: fx_mul(self.x, o.x), y: fx_mul(self.y, o.y), z: fx_mul(self.z, o.z) }
    }

    /// What division of every component by a scalar returns.
    pub open spec fn spec_div_scalar(self, s: i64) -> Vec3
        recommends
            s != 0,
    {
        Vec3 {
            x: spec_fx_div(self.x, s),
            y: spec_fx_div(self.y, s),
            z: spec_fx_div(self.z, s),
        }
    }

    /// Divide every component by the scalar `s`.
    pub fn div_scalar(self, s: i64) -> (r: Vec3)
        requires
            s != 0,
        ensures
            r == self.spec_div_scalar(s),
    {
        Vec3 { x: fx_div(self.x, s), y: fx_div(self.y, s), z: fx_div(self.z, s) }
    }

    /// What the dot product returns.
    pub open spec fn spec_dot(self, o: Vec3) -> i64 {
        spec_fx_add(
            spec_fx_add(spec_fx_mul(self.x, o.x), spec_fx_mul(self.y, o.y)),
            spec_fx_mul(self.z, o.z),
        )
    }

    /// Dot product.
    pub fn dot(self, o: Vec3) -> (r: i64)
        ensures
            r == self.spec_dot(o),
    {
        fx_add(fx_add(fx_mul(self.x, o.x), fx_mul(self.y, o.y)), fx_mul(self.z, o.z))
    }

    /// What the cross product returns.
    pub open spec fn spec_cross(self, o: Vec3) -> Vec3 {
        Vec3 {
            x: spec_fx_sub(spec_fx_mul(self.y, o.z), spec_fx_mul(self.z, o.y)),
            y: spec_fx_sub(spec_fx_mul(self.z, o.x), spec_fx_mul(self.x, o.z)),
            z: spec_fx_sub(spec_fx_mul(self.x, o.y), spec_fx_mul(self.y, o.x)),
        }
    }

    /// Cross product.
    pub fn cross(self, o: Vec3) -> (r: Vec3)
        ensures
            r == self.spec_cross(o),
    {
        Vec3 {
            x: fx_sub(fx_mul(self.y, o.z), fx_mul(self.z, o.y)),
            y: fx_sub(fx_mul(self.z, o.x), fx_mul(self.x, o.z)),
            z: fx_sub(fx_mul(self.x, o.y), fx_mul(self.y, o.x)),
        }
    }

    /// The squared length: the dot product of a vector with itself.
    pub open spec fn spec_length_squared(self) -> i64 {
        self.spec_dot(self)
    }

    /// Squared length.
    pub fn length_squared(self) -> (r: i64)
        ensures
            r == self.spec_length_squared(),
            r >= 0,
    {
        proof {
            self.lemma_length_squared_nonneg();
        }
        self.dot(self)
    }

    /// A dot product of a vector with itself is never negative.
    pub proof fn lemma_length_squared_nonneg(self)
        ensures
            self.spec_length_squared() >= 0,
    {
        lemma_fx_square_nonneg(self.x);
        lemma_fx_square_nonneg(self.y);
        lemma_fx_square_nonneg(self.z);
    }

    /// What the length returns: the scalar square root of the squared length.
    pub open spec fn spec_length(self) -> i64 {
        spec_fx_sqrt(self.spec_length_squared())
    }

    /// Length.
    pub fn length(self) -> (r: i64)
        ensures
            r == self.spec_length(),
            r >= 0,
    {
        proof {
            self.lemma_length_squared_nonneg();
        }
        fx_sqrt(self.length_squared())
    }

    /// What normalisation returns.  A vector whose length rounds to zero is
    /// returned unchanged: the direction of such a vector is not defined in
    /// this arithmetic, and the callers guard against it where it matters.
    pub open spec fn spec_normalize(self) -> Vec3 {
        let l = self.spec_length();
        if l == 0 {
            self
        } else {
            self.spec_div_scalar(l)
        }
    }

    /// Normalise toward unit length.
    pub fn normalize(self) -> (r: Vec3)
        ensures
            r == self.spec_normalize(),
    {
        let l = self.length();
        if l == 0 {
            self
        } else {
            self.div_scalar(l)
        }
    }

    /// What mirror reflection about a normal returns.
    pub open spec fn spec_reflect(self, normal: Vec3) -> Vec3 {
        self.spec_sub(normal.spec_scale(spec_fx_mul(FX_TWO, self.spec_dot(normal))))
    }

    /// Reflect this direction about `normal`.
    pub fn reflect(self, normal: Vec3) -> (r: Vec3)
        ensures
            r == self.spec_reflect(normal),
    {
        self.sub(normal.scale(fx_mul(FX_TWO, self.dot(normal))))
    }

    /// What refraction by Snell's law returns: the perpendicular component
    /// `eta * (self + cos_theta * normal)` plus the parallel component
    /// `-normal * sqrt(|1 - |perp|^2|)`.
    pub open spec fn spec_refract(self, normal: Vec3, eta_over_eta_prime: i64) -> Vec3 {
        let cos_theta = spec_fx_min(self.spec_neg().spec_dot(normal), FX_ONE);
        let perp = self.spec_add(normal.spec_scale(cos_theta)).spec_scale(eta_over_eta_prime);
        let k = spec_fx_abs(spec_fx_sub(FX_ONE, perp.spec_length_squared()));
        perp.spec_add(normal.spec_neg().spec_scale(spec_fx_sqrt(k)))
    }

    /// Refract this direction through a surface with the given ratio of
    /// refractive indices.
    pub fn refract(self, normal: Vec3, eta_over_eta_prime: i64) -> (r: Vec3)
        ensures
            r == self.spec_refract(normal, eta_over_eta_prime),
    {
        let cos_theta = fx_min(self.neg().dot(normal), FX_ONE);
        let perp = self.add(normal.scale(cos_theta)).scale(eta_over_eta_prime);
        let k = fx_abs(fx_sub(FX_ONE, perp.length_squared()));
        perp.add(normal.neg().scale(fx_sqrt(k)))
    }
}

} // verus!
