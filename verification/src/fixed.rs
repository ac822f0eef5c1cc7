//! Fixed-point scalar arithmetic.
//!
//! A scalar is an `i64` counting units of `1 / FX_ONE`, so the value `1.0`
//! is the raw integer `FX_ONE`.  Multiplication and division rescale their
//! exact integer result and truncate it toward zero; every operation
//! saturates at the `i64` range instead of wrapping.  The specification
//! functions below (`spec_fx_add` and friends) state each operation exactly,
//! and the executable operations are proved equal to them.

use vstd::prelude::*;

verus! {

/// Raw value of the scalar `1.0`: scalars count units of `1 / FX_ONE`.
pub const FX_ONE: i64 = 65536;

/// Raw value of the scalar `0.5`.
pub const FX_HALF: i64 = 32768;

/// Raw value of the scalar `2.0`.
pub const FX_TWO: i64 = 131072;

/// Absolute value of an unbounded integer.
pub open spec fn int_abs(x: int) -> int {
    if x < 0 {
        -x
    } else {
        x
    }
}

/// Saturate an unbounded integer into the `i64` range.
pub open spec fn sat(x: int) -> int {
    if x > i64::MAX {
        i64::MAX as int
    } else if x < i64::MIN {
        i64::MIN as int
    } else {
        x
    }
}

/// `sat`, carried back into the `i64` type.
pub open spec fn sat64(x: int) -> i64 {
    sat(x) as i64
}

/// Integer division truncated toward zero (the rounding used by the
/// scalar multiplication and division).
pub open spec fn tdiv(x: int, d: int) -> int
    recommends
        d != 0,
{
    let q = int_abs(x) / int_abs(d);
    if (x < 0) != (d < 0) {
        -q
    } else {
        q
    }
}

/// What scalar addition returns.
pub open spec fn spec_fx_add(a: i64, b: i64) -> i64 {
    sat64(a + b)
}

/// What scalar subtraction returns.
pub open spec fn spec_fx_sub(a: i64, b: i64) -> i64 {
    sat64(a - b)
}

/// What scalar negation returns.
pub open spec fn spec_fx_neg(a: i64) -> i64 {
    sat64(-a)
}

/// What scalar multiplication returns: the exact product, rescaled by
/// `FX_ONE` with truncation toward zero, then saturated.
pub open spec fn spec_fx_mul(a: i64, b: i64) -> i64 {
    sat64(tdiv(a * b, FX_ONE as int))
}

/// What scalar division returns: the exact quotient scaled by `FX_ONE`,
/// truncated toward zero, then saturated.
pub open spec fn spec_fx_div(a: i64, b: i64) -> i64
    recommends
        b != 0,
{
    sat64(tdiv(a * (FX_ONE as int), b as int))
}

/// Integer square root, defined by counting up.  Used only in
/// specifications; the executable square root is a binary search proved
/// equal to it.
pub open spec fn isqrt(n: nat) -> nat
    decreases n,
{
    if n == 0 {
        0
    } else {
        let r = isqrt((n - 1) as nat);
        if (r + 1) * (r + 1) <= n {
            r + 1
        } else {
            r
        }
    }
}

/// What the scalar square root returns: the integer square root of the
/// argument rescaled so that the result is again a scalar.
pub open spec fn spec_fx_sqrt(x: i64) -> i64
    recommends
        x >= 0,
{
    isqrt((x * (FX_ONE as int)) as nat) as i64
}

/// `isqrt(n)` really is the integer square root of `n`.
pub proof fn lemma_isqrt_bounds(n: nat)
    ensures
        isqrt(n) * isqrt(n) <= n,
        n < (isqrt(n) + 1) * (isqrt(n) + 1),
    decreases n,
{
    if n > 0 {
        let r = isqrt((n - 1) as nat);
        lemma_isqrt_bounds((n - 1) as nat);
        assert(r * r <= n - 1);
        assert(n - 1 < (r + 1) * (r + 1));
        if (r + 1) * (r + 1) <= n {
            assert(isqrt(n) == r + 1);
            assert(n < (r + 2) * (r + 2)) by (nonlinear_arith)
                requires
                    n <= (r + 1) * (r + 1),
                    r >= 0,
            ;
            assert(isqrt(n) * isqrt(n) <= n);
            assert(n < (isqrt(n) + 1) * (isqrt(n) + 1)) by (nonlinear_arith)
                requires
                    isqrt(n) == r + 1,
                    n < (r + 2) * (r + 2),
            ;
        } else {
            assert(isqrt(n) == r);
            assert(isqrt(n) * isqrt(n) <= n);
            assert(n < (isqrt(n) + 1) * (isqrt(n) + 1)) by (nonlinear_arith)
                requires
                    isqrt(n) == r,
                    n < (r + 1) * (r + 1),
            ;
        }
    } else {
        assert(isqrt(n) == 0);
        assert(isqrt(n) * isqrt(n) <= n);
        assert(n < (isqrt(n) + 1) * (isqrt(n) + 1)) by (nonlinear_arith)
            requires
                isqrt(n) == 0,
                n == 0,
        ;
    }
}

/// The integer square root is the unique `r` with `r^2 <= n < (r+1)^2`.
pub proof fn lemma_isqrt_unique(n: nat, r: nat)
    requires
        r * r <= n,
        n < (r + 1) * (r + 1),
    ensures
        r == isqrt(n),
{
    let s = isqrt(n);
    lemma_isqrt_bounds(n);
    assert(r == s) by (nonlinear_arith)
        requires
            r * r <= n,
            n < (r + 1) * (r + 1),
            s * s <= n,
            n < (s + 1) * (s + 1),
    ;
}

/// Scalar addition, saturating at the `i64` range.
pub fn fx_add(a: i64, b: i64) -> (r: i64)
    ensures
        r == spec_fx_add(a, b),
{
    let s: i128 = a as i128 + b as i128;
    if s > i64::MAX as i128 {
        i64::MAX
    } else if s < i64::MIN as i128 {
        i64::MIN
    } else {
        s as i64
    }
}

/// Scalar subtraction, saturating at the `i64` range.
pub fn fx_sub(a: i64, b: i64) -> (r: i64)
    ensures
        r == spec_fx_sub(a, b),
{
    let s: i128 = a as i128 - b as i128;
    if s > i64::MAX as i128 {
        i64::MAX
    } else if s < i64::MIN as i128 {
        i64::MIN
    } else {
        s as i64
    }
}

/// Scalar negation, saturating at the `i64` range.
pub fn fx_neg(a: i64) -> (r: i64)
    ensures
        r == spec_fx_neg(a),
{
    let s: i128 = -(a as i128);
    if s > i64::MAX as i128 {
        i64::MAX
    } else {
        s as i64
    }
}

/// Scalar multiplication: rescales the exact product, truncating toward
/// zero and saturating at the `i64` range.
pub fn fx_mul(a: i64, b: i64) -> (r: i64)
    ensures
        r == spec_fx_mul(a, b),
{
    proof {
        assert((a as int) * (b as int) <= 0x8000000000000000 * 0x8000000000000000
            && -(0x8000000000000000 * 0x8000000000000000) <= (a as int) * (b as int))
            by (nonlinear_arith)
            requires
                -0x8000000000000000 <= a as int <= 0x7fffffffffffffff,
                -0x8000000000000000 <= b as int <= 0x7fffffffffffffff,
        ;
    }
    let p: i128 = (a as i128) * (b as i128);
    let neg: bool = p < 0;
    let mag: u128 = if neg {
        (-p) as u128
    } else {
        p as u128
    };
    let q: u128 = mag / 65536;
    proof {
        vstd::arithmetic::div_mod::lemma_fundamental_div_mod(mag as int, 65536);
    }
    let qi: i128 = if neg {
        -(q as i128)
    } else {
        q as i128
    };
    if qi > i64::MAX as i128 {
        i64::MAX
    } else if qi < i64::MIN as i128 {
        i64::MIN
    } else {
        qi as i64
    }
}

/// Scalar division: scales the dividend by `FX_ONE`, divides exactly,
/// truncates toward zero and saturates at the `i64` range.
pub fn fx_div(a: i64, b: i64) -> (r: i64)
    requires
        b != 0,
    ensures
        r == spec_fx_div(a, b),
{
    let p: i128 = (a as i128) * 65536;
    let pneg: bool = p < 0;
    let pmag: u128 = if pneg {
        (-p) as u128
    } else {
        p as u128
    };
    let bi: i128 = b as i128;
    let bneg: bool = bi < 0;
    let bmag: u128 = if bneg {
        (-bi) as u128
    } else {
        bi as u128
    };
    let q: u128 = pmag / bmag;
    proof {
        vstd::arithmetic::div_mod::lemma_fundamental_div_mod(pmag as int, bmag as int);
        vstd::arithmetic::mul::lemma_mul_inequality(1, bmag as int, q as int);
    }
    let qi: i128 = if pneg != bneg {
        -(q as i128)
    } else {
        q as i128
    };
    if qi > i64::MAX as i128 {
        i64::MAX
    } else if qi < i64::MIN as i128 {
        i64::MIN
    } else {
        qi as i64
    }
}

/// Scalar square root of a nonnegative scalar, by binary search.
pub fn fx_sqrt(x: i64) -> (r: i64)
    requires
        x >= 0,
    ensures
        r == spec_fx_sqrt(x),
        r >= 0,
        (r as int) * (r as int) <= (x as int) * (FX_ONE as int),
        (x as int) * (FX_ONE as int) < ((r as int) + 1) * ((r as int) + 1),
{
    let m: u128 = (x as u128) * 65536;
    let mut lo: u128 = 0;
    let mut hi: u128 = 0x10000000000;
    proof {
        assert((hi as int) * (hi as int) > m as int) by (nonlinear_arith)
            requires
                hi == 0x10000000000int,
                m as int <= 0x7fffffffffffffffint * 65536,
        ;
    }
    while lo + 1 < hi
        invariant
            (lo as int) * (lo as int) <= m as int,
            (hi as int) * (hi as int) > m as int,
            lo < hi,
            hi <= 0x10000000000,
        decreases hi - lo,
    {
        let mid: u128 = lo + (hi - lo) / 2;
        proof {
            assert((mid as int) * (mid as int) <= 0x100000000000000000000int) by (nonlinear_arith)
                requires
                    0 <= mid as int <= 0x10000000000int,
            ;
        }
        if mid * mid <= m {
            lo = mid;
        } else {
            hi = mid;
        }
    }
    proof {
        lemma_isqrt_unique(m as nat, lo as nat);
    }
    lo as i64
}

/// What taking the smaller scalar returns.
pub open spec fn spec_fx_min(a: i64, b: i64) -> i64 {
    if a < b {
        a
    } else {
        b
    }
}

/// The smaller of two scalars.
pub fn fx_min(a: i64, b: i64) -> (r: i64)
    ensures
        r == spec_fx_min(a, b),
{
    if a < b {
        a
    } else {
        b
    }
}

/// What taking the larger scalar returns.
pub open spec fn spec_fx_max(a: i64, b: i64) -> i64 {
    if a > b {
        a
    } else {
        b
    }
}

/// The larger of two scalars.
pub fn fx_max(a: i64, b: i64) -> (r: i64)
    ensures
        r == spec_fx_max(a, b),
{
    if a > b {
        a
    } else {
        b
    }
}

/// Dividing a nonnegative scalar by a positive one never goes negative.
pub proof fn lemma_fx_div_nonneg(a: i64, b: i64)
    requires
        a >= 0,
        b > 0,
    ensures
        spec_fx_div(a, b) >= 0,
{
    vstd::arithmetic::div_mod::lemma_div_pos_is_pos((a as int) * (FX_ONE as int), b as int);
}

/// What the scalar absolute value returns.
pub open spec fn spec_fx_abs(a: i64) -> i64 {
    sat64(int_abs(a as int))
}

/// Absolute value of a scalar, saturating at the `i64` range.
pub fn fx_abs(a: i64) -> (r: i64)
    ensures
        r == spec_fx_abs(a),
        r >= 0,
{
    let s: i128 = a as i128;
    let m: i128 = if s < 0 {
        -s
    } else {
        s
    };
    if m > i64::MAX as i128 {
        i64::MAX
    } else {
        m as i64
    }
}

/// Scaling a nonnegative scalar by a factor in `[0, 1)` keeps it within
/// `[0, b]`.
pub proof fn lemma_fx_mul_unit_bound(r: i64, b: i64)
    requires
        0 <= r < FX_ONE,
        0 <= b,
    ensures
        0 <= spec_fx_mul(r, b) <= b,
{
    assert(0 <= r * b <= (FX_ONE as int) * b) by (nonlinear_arith)
        requires
            0 <= r <= FX_ONE as int,
            0 <= b,
    ;
    vstd::arithmetic::div_mod::lemma_div_pos_is_pos(r as int * b as int, FX_ONE as int);
    vstd::arithmetic::div_mod::lemma_div_is_ordered(
        r as int * b as int,
        (FX_ONE as int) * b,
        FX_ONE as int,
    );
    vstd::arithmetic::div_mod::lemma_div_multiples_vanish(b as int, FX_ONE as int);
}

/// Truncating division undoes scaling by `FX_ONE` exactly.
pub proof fn lemma_tdiv_multiple(m: int)
    ensures
        tdiv(m * (FX_ONE as int), FX_ONE as int) == m,
{
    if m >= 0 {
        vstd::arithmetic::div_mod::lemma_div_by_multiple(m, FX_ONE as int);
        assert(int_abs(m * (FX_ONE as int)) == m * (FX_ONE as int));
    } else {
        vstd::arithmetic::div_mod::lemma_div_by_multiple(-m, FX_ONE as int);
        assert(m * (FX_ONE as int) == -((-m) * (FX_ONE as int)));
        assert(int_abs(m * (FX_ONE as int)) == (-m) * (FX_ONE as int));
    }
}

/// Scaling by a whole-number scalar (a multiple of `FX_ONE`) is exact:
/// no rounding happens, only the saturation guard is needed.
pub proof fn lemma_fx_mul_integral(t: i64, c: i64)
    requires
        t % FX_ONE == 0,
        i64::MIN <= (t / FX_ONE) * c <= i64::MAX,
    ensures
        spec_fx_mul(t, c) == (t / FX_ONE) * c,
{
    let k = (t / FX_ONE) as int;
    vstd::arithmetic::div_mod::lemma_fundamental_div_mod(t as int, FX_ONE as int);
    assert(t == (FX_ONE as int) * k);
    assert((t as int) * (c as int) == (k * c) * (FX_ONE as int)) by (nonlinear_arith)
        requires
            t == (FX_ONE as int) * k,
    ;
    lemma_tdiv_multiple(k * c);
}

/// Scaling distributes exactly over a sum of whole-number scalars whose
/// scaled values stay in range.
pub proof fn lemma_fx_mul_additive(t1: i64, t2: i64, c: i64)
    requires
        t1 % FX_ONE == 0,
        t2 % FX_ONE == 0,
        i64::MIN <= t1 + t2 <= i64::MAX,
        i64::MIN <= (t1 / FX_ONE) * c <= i64::MAX,
        i64::MIN <= (t2 / FX_ONE) * c <= i64::MAX,
        i64::MIN <= (t1 / FX_ONE) * c + (t2 / FX_ONE) * c <= i64::MAX,
    ensures
        spec_fx_mul(spec_fx_add(t1, t2), c) == spec_fx_add(spec_fx_mul(t1, c), spec_fx_mul(t2, c)),
{
    let k1 = (t1 / FX_ONE) as int;
    let k2 = (t2 / FX_ONE) as int;
    lemma_fx_mul_integral(t1, c);
    lemma_fx_mul_integral(t2, c);
    vstd::arithmetic::div_mod::lemma_fundamental_div_mod(t1 as int, FX_ONE as int);
    vstd::arithmetic::div_mod::lemma_fundamental_div_mod(t2 as int, FX_ONE as int);
    let t12 = spec_fx_add(t1, t2);
    assert(t12 == t1 + t2);
    assert(t12 == (k1 + k2) * (FX_ONE as int)) by (nonlinear_arith)
        requires
            t1 == (FX_ONE as int) * k1,
            t2 == (FX_ONE as int) * k2,
            t12 == t1 + t2,
    ;
    vstd::arithmetic::div_mod::lemma_mod_multiples_basic(k1 + k2, FX_ONE as int);
    vstd::arithmetic::div_mod::lemma_div_multiples_vanish(k1 + k2, FX_ONE as int);
    assert(t12 % FX_ONE == 0);
    assert(t12 / FX_ONE == k1 + k2);
    assert(i64::MIN <= (k1 + k2) * c <= i64::MAX && (k1 + k2) * c == k1 * c + k2 * c)
        by (nonlinear_arith)
        requires
            i64::MIN as int <= k1 * c <= i64::MAX as int,
            i64::MIN as int <= k2 * c <= i64::MAX as int,
            i64::MIN as int <= k1 * c + k2 * c <= i64::MAX as int,
    ;
    lemma_fx_mul_integral(t12, c);
}

/// The scalar square of any scalar is nonnegative.
pub proof fn lemma_fx_square_nonneg(a: i64)
    ensures
        spec_fx_mul(a, a) >= 0,
{
    assert((a as int) * (a as int) >= 0) by (nonlinear_arith);
    vstd::arithmetic::div_mod::lemma_div_pos_is_pos((a as int) * (a as int), FX_ONE as int);
}

/// Multiplying by the raw zero scalar gives exactly zero.
pub proof fn lemma_fx_mul_zero(a: i64)
    ensures
        spec_fx_mul(a, 0) == 0,
        spec_fx_mul(0, a) == 0,
{
}

} // verus!
