//! Fixed-point scalar arithmetic for the engine.
//!
//! Every scalar quantity of the simulation (positions, velocities, masses,
//! seconds, coefficients) is an `i64` holding millionths of a unit.  All
//! operations saturate at the `i64` range instead of wrapping or panicking,
//! and every operation has an exact specification, so the rest of the
//! engine can state its behaviour precisely.

use vstd::prelude::*;

verus! {

/// Number of fixed-point steps in 1.0 — all quantities are counts of millionths.
pub const FP_ONE: i64 = 1_000_000;

/// Truncating (round-toward-zero) division for a positive divisor: the
/// semantics of machine `/`.  Verus's own `/` on `int` is Euclidean, which
/// differs on negative dividends.
pub open spec fn tdiv(a: int, b: int) -> int
    recommends
        b > 0,
{
    if a >= 0 {
        a / b
    } else {
        -((-a) / b)
    }
}

/// Clamp a mathematical integer into the `i64` range.
pub open spec fn sat64(x: int) -> i64 {
    if x > i64::MAX {
        i64::MAX
    } else if x < i64::MIN {
        i64::MIN
    } else {
        x as i64
    }
}

pub open spec fn spec_fp_add(a: i64, b: i64) -> i64 {
    sat64(a + b)
}

pub open spec fn spec_fp_sub(a: i64, b: i64) -> i64 {
    sat64(a - b)
}

pub open spec fn spec_fp_neg(a: i64) -> i64 {
    sat64(-a)
}

/// Fixed-point product: `a * b` rescaled by `FP_ONE`, truncated, saturated.
pub open spec fn spec_fp_mul(a: i64, b: i64) -> i64 {
    sat64(tdiv(a * b, FP_ONE as int))
}

/// Fixed-point quotient for a positive divisor: `a / b` rescaled by
/// `FP_ONE`, truncated, saturated.
pub open spec fn spec_fp_div(a: i64, b: i64) -> i64
    recommends
        b > 0,
{
    sat64(tdiv(a * FP_ONE, b as int))
}

/// Plain truncating integer division (no rescaling) for a positive divisor.
pub open spec fn spec_int_div(a: i64, b: i64) -> i64
    recommends
        b > 0,
{
    sat64(tdiv(a as int, b as int))
}

/// Saturating addition.
#[verifier::when_used_as_spec(spec_fp_add)]
pub fn fp_add(a: i64, b: i64) -> (r: i64)
    ensures
        r == spec_fp_add(a, b),
{
    match a.checked_add(b) {
        Some(s) => s,
        None => {
            if b > 0 {
                i64::MAX
            } else {
                i64::MIN
            }
        },
    }
}

/// Saturating subtraction.
#[verifier::when_used_as_spec(spec_fp_sub)]
pub fn fp_sub(a: i64, b: i64) -> (r: i64)
    ensures
        r == spec_fp_sub(a, b),
{
    match a.checked_sub(b) {
        Some(s) => s,
        None => {
            if b < 0 {
                i64::MAX
            } else {
                i64::MIN
            }
        },
    }
}

/// Saturating negation.
#[verifier::when_used_as_spec(spec_fp_neg)]
pub fn fp_neg(a: i64) -> (r: i64)
    ensures
        r == spec_fp_neg(a),
{
    if a == i64::MIN {
        i64::MAX
    } else {
        -a
    }
}

/// Clamp a 128-bit quotient into the `i64` range.
pub(crate) fn clamp_i128(q: i128) -> (r: i64)
    ensures
        r == sat64(q as int),
{
    if q > i64::MAX as i128 {
        i64::MAX
    } else if q < i64::MIN as i128 {
        i64::MIN
    } else {
        q as i64
    }
}

/// Truncating division of an `i128` by a positive `i128`.
pub(crate) fn div_i128(a: i128, b: i128) -> (r: i128)
    requires
        b > 0,
    ensures
        r == tdiv(a as int, b as int),
{
    let r = a.checked_div(b);
    proof {
        assert(r.is_some());
    }
    r.unwrap()
}

/// Fixed-point multiplication.
#[verifier::when_used_as_spec(spec_fp_mul)]
pub fn fp_mul(a: i64, b: i64) -> (r: i64)
    ensures
        r == spec_fp_mul(a, b),
{
    proof {
        assert(i64::MIN as int * i64::MIN as int <= i128::MAX as int);
        assert(a * b <= i128::MAX && i128::MIN <= a * b) by (nonlinear_arith)
            requires
                i64::MIN <= a <= i64::MAX,
                i64::MIN <= b <= i64::MAX,
        ;
    }
    let p: i128 = (a as i128) * (b as i128);
    let q = div_i128(p, FP_ONE as i128);
    clamp_i128(q)
}

/// Fixed-point division by a positive divisor.
#[verifier::when_used_as_spec(spec_fp_div)]
pub fn fp_div(a: i64, b: i64) -> (r: i64)
    requires
        b > 0,
    ensures
        r == spec_fp_div(a, b),
{
    proof {
        assert(a * FP_ONE <= i128::MAX && i128::MIN <= a * FP_ONE) by (nonlinear_arith)
            requires
                i64::MIN <= a <= i64::MAX,
        ;
    }
    let p: i128 = (a as i128) * (FP_ONE as i128);
    let q = div_i128(p, b as i128);
    clamp_i128(q)
}

/// Plain truncating division by a positive divisor.
#[verifier::when_used_as_spec(spec_int_div)]
pub fn int_div(a: i64, b: i64) -> (r: i64)
    requires
        b > 0,
    ensures
        r == spec_int_div(a, b),
{
    let r = a.checked_div(b);
    proof {
        assert(r.is_some());
    }
    r.unwrap()
}

pub open spec fn spec_fp_abs(a: i64) -> i64 {
    if a >= 0 {
        a
    } else {
        sat64(-a)
    }
}

/// Saturating absolute value.
#[verifier::when_used_as_spec(spec_fp_abs)]
pub fn fp_abs(a: i64) -> (r: i64)
    ensures
        r == spec_fp_abs(a),
{
    if a >= 0 {
        a
    } else if a == i64::MIN {
        i64::MAX
    } else {
        -a
    }
}

pub open spec fn spec_fp_max(a: i64, b: i64) -> i64 {
    if a > b {
        a
    } else {
        b
    }
}

#[verifier::when_used_as_spec(spec_fp_max)]
pub fn fp_max(a: i64, b: i64) -> (r: i64)
    ensures
        r == spec_fp_max(a, b),
{
    if a > b {
        a
    } else {
        b
    }
}

pub open spec fn spec_fp_min(a: i64, b: i64) -> i64 {
    if a < b {
        a
    } else {
        b
    }
}

#[verifier::when_used_as_spec(spec_fp_min)]
pub fn fp_min(a: i64, b: i64) -> (r: i64)
    ensures
        r == spec_fp_min(a, b),
{
    if a < b {
        a
    } else {
        b
    }
}

/// Truncating division of a nonnegative value agrees with Euclidean
/// division and stays nonnegative.
pub proof fn lemma_tdiv_nonneg(a: int, b: int)
    requires
        a >= 0,
        b > 0,
    ensures
        tdiv(a, b) == a / b,
        tdiv(a, b) >= 0,
{
    vstd::arithmetic::div_mod::lemma_div_pos_is_pos(a, b);
}

/// Truncating division is monotone in the dividend.
pub proof fn lemma_tdiv_ordered(a1: int, a2: int, b: int)
    requires
        a1 <= a2,
        b > 0,
    ensures
        tdiv(a1, b) <= tdiv(a2, b),
{
    if a1 >= 0 {
        vstd::arithmetic::div_mod::lemma_div_is_ordered(a1, a2, b);
    } else if a2 >= 0 {
        vstd::arithmetic::div_mod::lemma_div_pos_is_pos(-a1, b);
        vstd::arithmetic::div_mod::lemma_div_pos_is_pos(a2, b);
    } else {
        vstd::arithmetic::div_mod::lemma_div_is_ordered(-a2, -a1, b);
    }
}

/// For a nonnegative dividend, truncating division is antitone in the divisor.
pub proof fn lemma_tdiv_ordered_by_denominator(a: int, b1: int, b2: int)
    requires
        a >= 0,
        0 < b1 <= b2,
    ensures
        tdiv(a, b2) <= tdiv(a, b1),
{
    vstd::arithmetic::div_mod::lemma_div_is_ordered_by_denominator(a, b1, b2);
}

/// Dividing zero gives zero.
pub proof fn lemma_tdiv_zero(b: int)
    requires
        b > 0,
    ensures
        tdiv(0, b) == 0,
{
    vstd::arithmetic::div_mod::lemma_div_of0(b);
}

/// Truncating division undoes an exact multiple.
pub proof fn lemma_tdiv_mul_cancel(a: int, b: int)
    requires
        b > 0,
    ensures
        tdiv(a * b, b) == a,
{
    if a >= 0 {
        assert(a * b >= 0 && a * b == b * a) by (nonlinear_arith)
            requires
                a >= 0,
                b > 0,
        ;
        vstd::arithmetic::div_mod::lemma_div_multiples_vanish(a, b);
    } else {
        assert(a * b < 0 && -(a * b) == b * (-a)) by (nonlinear_arith)
            requires
                a < 0,
                b > 0,
        ;
        vstd::arithmetic::div_mod::lemma_div_multiples_vanish(-a, b);
    }
}

/// A divisible dividend is recovered exactly: `tdiv(a, b) * b == a`.
pub proof fn lemma_tdiv_exact(a: int, b: int)
    requires
        b > 0,
        a % b == 0,
    ensures
        tdiv(a, b) * b == a,
{
    vstd::arithmetic::div_mod::lemma_fundamental_div_mod(a, b);
    if a >= 0 {
        assert(tdiv(a, b) * b == (a / b) * b);
        assert(b * (a / b) == (a / b) * b) by (nonlinear_arith);
    } else {
        vstd::arithmetic::div_mod::lemma_fundamental_div_mod(-a, b);
        assert(a == b * (a / b));
        let q = a / b;
        assert(-a == b * (-q)) by (nonlinear_arith)
            requires
                a == b * q,
        ;
        vstd::arithmetic::div_mod::lemma_div_multiples_vanish(-q, b);
        assert((-a) / b == -q);
        assert(tdiv(a, b) == q);
        assert(q * b == a) by (nonlinear_arith)
            requires
                a == b * q,
        ;
    }
}

/// A common positive factor of dividend and divisor cancels.
pub proof fn lemma_tdiv_scale_cancel(c: int, a: int, b: int)
    requires
        c > 0,
        b > 0,
    ensures
        tdiv(c * a, c * b) == tdiv(a, b),
{
    assert(c * b > 0) by (nonlinear_arith)
        requires
            c > 0,
            b > 0,
    ;
    if a >= 0 {
        assert(c * a >= 0) by (nonlinear_arith)
            requires
                c > 0,
                a >= 0,
        ;
        vstd::arithmetic::div_mod::lemma_div_denominator(c * a, c, b);
        vstd::arithmetic::div_mod::lemma_div_multiples_vanish(a, c);
        assert(c * a == a * c) by (nonlinear_arith);
        assert((c * a) / c == a);
    } else {
        assert(-(c * a) == c * (-a)) by (nonlinear_arith);
        assert(c * (-a) >= 0) by (nonlinear_arith)
            requires
                c > 0,
                a < 0,
        ;
        vstd::arithmetic::div_mod::lemma_div_denominator(c * (-a), c, b);
        vstd::arithmetic::div_mod::lemma_div_multiples_vanish(-a, c);
        assert(c * (-a) == (-a) * c) by (nonlinear_arith);
        assert((c * (-a)) / c == -a);
    }
}

/// For a nonnegative dividend, the truncated quotient times the divisor
/// stays at or below the dividend.
pub proof fn lemma_tdiv_mul_le(x: int, q: int)
    requires
        x >= 0,
        q > 0,
    ensures
        tdiv(x, q) >= 0,
        tdiv(x, q) * q <= x,
{
    vstd::arithmetic::div_mod::lemma_fundamental_div_mod(x, q);
    vstd::arithmetic::div_mod::lemma_div_pos_is_pos(x, q);
    assert(x % q >= 0);
    assert((x / q) * q == q * (x / q)) by (nonlinear_arith);
}

/// Saturation preserves order.
pub proof fn lemma_sat64_monotonic(a: int, b: int)
    requires
        a <= b,
    ensures
        sat64(a) <= sat64(b),
{
}

/// The greatest `r >= 0` with `r * r <= n`, for `n >= 0`.
pub open spec fn sqrt_floor(n: int) -> int {
    choose|r: int| 0 <= r && #[trigger] (r * r) <= n < (r + 1) * (r + 1)
}

/// For every `n >= 0` a floor square root exists, so `sqrt_floor` denotes it.
pub proof fn lemma_sqrt_floor_exists(n: int)
    requires
        n >= 0,
    ensures
        0 <= sqrt_floor(n),
        sqrt_floor(n) * sqrt_floor(n) <= n,
        n < (sqrt_floor(n) + 1) * (sqrt_floor(n) + 1),
    decreases n,
{
    if n == 0 {
        let r0: int = 0;
        assert(r0 * r0 == 0 && (r0 + 1) * (r0 + 1) == 1) by (nonlinear_arith)
            requires
                r0 == 0,
        ;
        assert(0 <= r0 && r0 * r0 <= n < (r0 + 1) * (r0 + 1));
        assert(exists|r: int| 0 <= r && #[trigger] (r * r) <= n < (r + 1) * (r + 1));
    } else {
        lemma_sqrt_floor_exists(n - 1);
        let r = sqrt_floor(n - 1);
        if (r + 1) * (r + 1) <= n {
            // then n == (r + 1) * (r + 1), and r + 1 is the root of n
            assert(n < (r + 2) * (r + 2)) by (nonlinear_arith)
                requires
                    0 <= r,
                    n <= (r + 1) * (r + 1),
            ;
            assert(0 <= r + 1 && (r + 1) * (r + 1) <= n < (r + 2) * (r + 2));
        } else {
            assert(0 <= r && r * r <= n < (r + 1) * (r + 1));
        }
    }
}

/// The floor square root is unique: anything satisfying its defining
/// property equals `sqrt_floor(n)`.
pub proof fn lemma_sqrt_floor_unique(n: int, r: int)
    requires
        0 <= r,
        r * r <= n,
        n < (r + 1) * (r + 1),
    ensures
        r == sqrt_floor(n),
{
    lemma_sqrt_floor_exists(n);
    let s = sqrt_floor(n);
    if s < r {
        assert((s + 1) * (s + 1) <= r * r) by (nonlinear_arith)
            requires
                0 <= s,
                s + 1 <= r,
        ;
    } else if r < s {
        assert((r + 1) * (r + 1) <= s * s) by (nonlinear_arith)
            requires
                0 <= r,
                r + 1 <= s,
        ;
    }
}

/// Floor square root of a `u128`, by bisection.
pub fn isqrt_u128(n: u128) -> (r: u64)
    ensures
        r == sqrt_floor(n as int),
{
    let mut lo: u128 = 0;
    let mut hi: u128 = 0xffff_ffff_ffff_ffff;
    if n < hi {
        hi = n + 1;
    } else {
        hi = hi + 1;
    }
    proof {
        assert((hi as int) * (hi as int) > n as int) by (nonlinear_arith)
            requires
                hi as int > 0xffff_ffff_ffff_ffff || hi as int > n as int,
                hi as int >= 1,
                n < 0x1_0000_0000_0000_0000_0000_0000_0000_0000,
        ;
    }
    while lo + 1 < hi
        invariant
            0 <= lo < hi <= 0x1_0000_0000_0000_0000,
            (lo as int) * (lo as int) <= n as int,
            (hi as int) * (hi as int) > n as int,
        decreases hi - lo,
    {
        let mid = lo + (hi - lo) / 2;
        proof {
            assert((mid as int) * (mid as int) < 0x1_0000_0000_0000_0000_0000_0000_0000_0000)
                by (nonlinear_arith)
                requires
                    0 <= mid < 0x1_0000_0000_0000_0000,
            ;
        }
        let sq = mid * mid;
        if sq <= n {
            lo = mid;
        } else {
            hi = mid;
        }
    }
    proof {
        lemma_sqrt_floor_unique(n as int, lo as int);
    }
    lo as u64
}

} // verus!
