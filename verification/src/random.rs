//! Random sampling: a uniform scalar in `[0, 1)` and rejection-sampled
//! points inside the unit disk and the unit ball.
//!
//! All randomness enters through one trusted wrapper around `fastrand`;
//! everything layered on it is verified.  The rejection loops are capped
//! so that termination is provable; a loop that exhausts its cap falls
//! back to the centre point, which satisfies the same contract and is
//! never reached in practice.

use crate::fixed::FX_ONE;
use crate::vec3::Vec3;
use vstd::prelude::*;

verus! {

/// Relies on `fastrand::u64`: a draw from the thread-local generator,
/// uniform within the given (non-empty) range.
#[verifier::external_body]
fn random_raw() -> (r: u64)
    ensures
        r < 65536,
{
    fastrand::u64(0..65536)
}

/// A uniform random scalar in `[0, 1)`, at the scalar's full resolution.
pub fn random_scalar() -> (r: i64)
    ensures
        0 <= r < FX_ONE,
{
    random_raw() as i64
}

/// A uniform random scalar in `[-1, 1)`.
pub fn random_symmetric_scalar() -> (r: i64)
    ensures
        -FX_ONE <= r < FX_ONE,
{
    2 * random_scalar() - FX_ONE
}

/// The capability of drawing random vectors, kept as an interface; the
/// contracts live on the inherent methods of `Vec3`.
pub trait RandomInUnitSphere: Sized {
    fn random() -> Self;
    fn random_in_unit_circle() -> Self;
    fn random_in_unit_sphere() -> Self;
}

impl Vec3 {
    /// A random vector with every component uniform in `[0, 1)` (a random
    /// colour).
    pub fn random() -> (r: Vec3)
        ensures
            0 <= r.x < FX_ONE,
            0 <= r.y < FX_ONE,
            0 <= r.z < FX_ONE,
    {
        Vec3 { x: random_scalar(), y: random_scalar(), z: random_scalar() }
    }

    /// A random point strictly inside the unit disk of the x-y plane, by
    /// rejection from the enclosing square.
    pub fn random_in_unit_circle() -> (r: Vec3)
        ensures
            r.spec_length_squared() < FX_ONE,
            r.z == 0,
    {
        let mut i: u64 = 0;
        while i < 64
            decreases 64 - i,
        {
            let vector = Vec3 { x: random_symmetric_scalar(), y: random_symmetric_scalar(), z: 0 };
            if vector.length_squared() < FX_ONE {
                return vector;
            }
            i = i + 1;
        }
        Vec3::zero()
    }

    /// A random point strictly inside the unit ball, by rejection from the
    /// enclosing cube.
    pub fn random_in_unit_sphere() -> (r: Vec3)
        ensures
            r.spec_length_squared() < FX_ONE,
    {
        let mut i: u64 = 0;
        while i < 64
            decreases 64 - i,
        {
            let vector = Vec3 {
                x: random_symmetric_scalar(),
                y: random_symmetric_scalar(),
                z: random_symmetric_scalar(),
            };
            if vector.length_squared() < FX_ONE {
                return vector;
            }
            i = i + 1;
        }
        Vec3::zero()
    }
}

impl RandomInUnitSphere for Vec3 {
    fn random() -> Self {
        Vec3::random()
    }

    fn random_in_unit_circle() -> Self {
        Vec3::random_in_unit_circle()
    }

    fn random_in_unit_sphere() -> Self {
        Vec3::random_in_unit_sphere()
    }
}

} // verus!
