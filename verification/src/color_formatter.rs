//! Turning an accumulated pixel colour into its textual form: average
//! over the samples, apply the square-root tone curve, clamp, and scale
//! to the 0..=255 integer range, rendered as three decimal numbers.

use crate::fixed::{fx_div, fx_sqrt, spec_fx_div, spec_fx_sqrt, FX_ONE};
use crate::output::{fmt_u64, spec_dec_digits};
use crate::vec3::Vec3;
use vstd::prelude::*;
use vstd::string::StringExecFns;

verus! {

/// The scalar `0.999`, rounded down to the scalar's resolution: the upper
/// clamp applied to a tone-mapped channel before scaling to `0..=255`.
pub const FX_CLAMP_MAX: i64 = 65470;

/// The largest sample count accepted by the formatter: any more would
/// overflow the scalar that the average divides by.
pub const MAX_SAMPLES: u64 = 140737488355327;

/// What one output channel is: the accumulated value averaged over the
/// samples, square-rooted (negative averages darken to zero), clamped to
/// `[0, 0.999]` and scaled to the integer range `0..=255`.
pub open spec fn spec_channel(v: i64, samples_fx: i64) -> int
    recommends
        samples_fx > 0,
{
    let averaged = spec_fx_div(v, samples_fx);
    let gamma = if averaged < 0 {
        0
    } else {
        spec_fx_sqrt(averaged)
    };
    let clamped = if gamma > FX_CLAMP_MAX {
        FX_CLAMP_MAX
    } else {
        gamma
    };
    clamped / 256
}

/// What formatting a pixel returns: the three channel values in decimal,
/// separated by single spaces.
pub open spec fn spec_format_color(v: Vec3, samples_per_pixel: u64) -> Seq<char>
    recommends
        1 <= samples_per_pixel <= MAX_SAMPLES,
{
    let samples_fx = (samples_per_pixel * FX_ONE) as i64;
    spec_dec_digits(spec_channel(v.x, samples_fx) as nat) + seq![' '] + spec_dec_digits(
        spec_channel(v.y, samples_fx) as nat,
    ) + seq![' '] + spec_dec_digits(spec_channel(v.z, samples_fx) as nat)
}

/// One output channel of an accumulated pixel value.
fn channel(v: i64, samples_fx: i64) -> (c: u64)
    requires
        samples_fx > 0,
    ensures
        c as int == spec_channel(v, samples_fx),
        c < 256,
{
    let averaged = fx_div(v, samples_fx);
    let gamma = if averaged < 0 {
        0
    } else {
        fx_sqrt(averaged)
    };
    let clamped = if gamma > FX_CLAMP_MAX {
        FX_CLAMP_MAX
    } else {
        gamma
    };
    proof {
        vstd::arithmetic::div_mod::lemma_fundamental_div_mod(clamped as int, 256);
    }
    (clamped as u64) / 256
}

impl Vec3 {
    /// Format this pixel's accumulated colour as `"r g b"` with each
    /// channel averaged, tone-mapped, clamped and scaled to `0..=255`.
    pub fn format_color(self, samples_per_pixel: u64) -> (s: String)
        requires
            1 <= samples_per_pixel <= MAX_SAMPLES,
        ensures
            s@ == spec_format_color(self, samples_per_pixel),
    {
        let samples_fx: i64 = (samples_per_pixel as i64) * FX_ONE;
        let r = channel(self.x, samples_fx);
        let g = channel(self.y, samples_fx);
        let b = channel(self.z, samples_fx);
        let mut s = fmt_u64(r);
        s.append(" ");
        s.append(fmt_u64(g).as_str());
        s.append(" ");
        s.append(fmt_u64(b).as_str());
        proof {
            reveal_strlit(" ");
            assert(" "@ =~= seq![' ']);
            assert(s@ =~= spec_format_color(self, samples_per_pixel));
        }
        s
    }
}

/// The capability of rendering a pixel's colour as text; the contract
/// lives on the inherent `format_color` of `Vec3`.
pub trait ColorFormatter {
    fn format_color(self, samples_per_pixel: u64) -> String
        requires
            1 <= samples_per_pixel <= MAX_SAMPLES,
    ;
}

impl ColorFormatter for Vec3 {
    fn format_color(self, samples_per_pixel: u64) -> String {
        Vec3::format_color(self, samples_per_pixel)
    }
}

} // verus!
