//! Radius-bounded gravity fields with selectable falloff laws.

use vstd::prelude::*;
use crate::fp::{
    fp_add, fp_div, fp_mul, lemma_sat64_monotonic, lemma_tdiv_nonneg, lemma_tdiv_ordered,
    lemma_tdiv_ordered_by_denominator, sat64, spec_fp_add, spec_fp_div, spec_fp_mul, tdiv, FP_ONE,
};

verus! {

/// How a field's pull falls off with distance from its owner.
#[derive(Clone, Copy, Debug, PartialEq, Eq, Structural)]
pub enum GravityFalloff {
    Linear,
    InverseSquare,
    Constant,
    /// Force scaled by `1 / (1 + distance^2 * rate)`.
    Custom(i64),
}

/// An attraction source carried by a body: every other dynamic body within
/// `radius` of the owner is pulled toward it.
#[derive(Clone, Copy, Debug, PartialEq, Eq, Structural)]
pub struct GravityField {
    pub strength: i64,
    pub radius: i64,
    pub falloff_type: GravityFalloff,
}

/// The smallest distance at which a field acts; callers clamp distances
/// away from zero before asking for a force, so the `Linear` and
/// `InverseSquare` laws never see a vanishing denominator.
pub const MIN_FIELD_DISTANCE: i64 = 1_000;

/// Force magnitude a field exerts on a target of mass `target_mass` at
/// `distance`: `strength * mass` for `Constant`, additionally divided by
/// the distance for `Linear`, by its square for `InverseSquare`, and by
/// `1 + distance^2 * rate` for `Custom(rate)` (zero when that denominator
/// is not positive).
pub open spec fn force_at(field: GravityField, distance: i64, target_mass: i64) -> i64 {
    let num = spec_fp_mul(field.strength, target_mass);
    match field.falloff_type {
        GravityFalloff::Constant => num,
        GravityFalloff::Linear => spec_fp_div(num, distance),
        GravityFalloff::InverseSquare => spec_fp_div(num, spec_fp_mul(distance, distance)),
        GravityFalloff::Custom(rate) => {
            let denom = spec_fp_add(
                FP_ONE,
                spec_fp_mul(spec_fp_mul(distance, distance), rate),
            );
            if denom > 0 {
                spec_fp_div(num, denom)
            } else {
                0
            }
        },
    }
}

impl GravityField {
    pub open spec fn spec_new(strength: i64, radius: i64, falloff_type: GravityFalloff)
        -> GravityField {
        GravityField { strength, radius, falloff_type }
    }

    #[verifier::when_used_as_spec(spec_new)]
    pub fn new(strength: i64, radius: i64, falloff_type: GravityFalloff) -> (r: GravityField)
        ensures
            r == GravityField::spec_new(strength, radius, falloff_type),
    {
        GravityField { strength, radius, falloff_type }
    }

    /// Force on a target at a distance already clamped away from zero.
    pub fn calculate_force(&self, distance: i64, target_mass: i64) -> (r: i64)
        requires
            distance >= MIN_FIELD_DISTANCE,
        ensures
            r == force_at(*self, distance, target_mass),
    {
        let num = fp_mul(self.strength, target_mass);
        match self.falloff_type {
            GravityFalloff::Constant => num,
            GravityFalloff::Linear => fp_div(num, distance),
            GravityFalloff::InverseSquare => {
                let d2 = fp_mul(distance, distance);
                proof {
                    lemma_dist_square_positive(distance);
                }
                fp_div(num, d2)
            },
            GravityFalloff::Custom(rate) => {
                let denom = fp_add(FP_ONE, fp_mul(fp_mul(distance, distance), rate));
                if denom > 0 {
                    fp_div(num, denom)
                } else {
                    0
                }
            },
        }
    }
}

/// A distance at or above the clamping threshold has a positive
/// fixed-point square.
proof fn lemma_dist_square_positive(d: i64)
    requires
        d >= MIN_FIELD_DISTANCE,
    ensures
        spec_fp_mul(d, d) >= 1,
{
    assert(d * d >= 1_000_000) by (nonlinear_arith)
        requires
            d >= 1_000,
    ;
    lemma_tdiv_ordered(1_000_000, d * d, FP_ONE as int);
    lemma_tdiv_nonneg(1_000_000, FP_ONE as int);
}

/// For the `Linear` and `InverseSquare` falloffs, with nonnegative strength
/// and target mass, the force never grows as the distance grows.  (Because
/// fixed-point quotients are truncated, two nearby distances can yield the
/// same force, so the decrease is monotone rather than strict.)
pub proof fn lemma_force_monotonic_in_distance(
    field: GravityField,
    d1: i64,
    d2: i64,
    target_mass: i64,
)
    requires
        field.falloff_type == GravityFalloff::Linear || field.falloff_type
            == GravityFalloff::InverseSquare,
        field.strength >= 0,
        target_mass >= 0,
        MIN_FIELD_DISTANCE <= d1 <= d2,
    ensures
        force_at(field, d2, target_mass) <= force_at(field, d1, target_mass),
{
    let num = spec_fp_mul(field.strength, target_mass);
    lemma_tdiv_nonneg(field.strength * target_mass, FP_ONE as int);
    assert(num >= 0);
    match field.falloff_type {
        GravityFalloff::Linear => {
            lemma_tdiv_ordered_by_denominator(num * FP_ONE, d1 as int, d2 as int);
            lemma_sat64_monotonic(tdiv(num * FP_ONE, d2 as int), tdiv(num * FP_ONE, d1 as int));
        },
        GravityFalloff::InverseSquare => {
            let s1 = spec_fp_mul(d1, d1);
            let s2 = spec_fp_mul(d2, d2);
            lemma_dist_square_positive(d1);
            lemma_dist_square_positive(d2);
            assert(d1 * d1 <= d2 * d2) by (nonlinear_arith)
                requires
                    0 <= d1 <= d2,
            ;
            lemma_tdiv_ordered(d1 * d1, d2 * d2, FP_ONE as int);
            lemma_sat64_monotonic(tdiv(d1 * d1, FP_ONE as int), tdiv(d2 * d2, FP_ONE as int));
            assert(0 < s1 <= s2);
            lemma_tdiv_ordered_by_denominator(num * FP_ONE, s1 as int, s2 as int);
            lemma_sat64_monotonic(tdiv(num * FP_ONE, s2 as int), tdiv(num * FP_ONE, s1 as int));
        },
        GravityFalloff::Constant => {},
        GravityFalloff::Custom(rate) => {},
    }
}

/// For the `Linear` falloff the decrease is strict whenever the scaled
/// numerator is at least the product of the two distances — the premise
/// that excludes exactly the nearby quotients truncation collapses into
/// one value (and a cap that keeps the nearer force unsaturated).
pub proof fn lemma_linear_force_strictly_decreases(
    field: GravityField,
    d1: i64,
    d2: i64,
    target_mass: i64,
)
    requires
        field.falloff_type == GravityFalloff::Linear,
        field.strength >= 0,
        target_mass >= 0,
        MIN_FIELD_DISTANCE <= d1 < d2,
        spec_fp_mul(field.strength, target_mass) * FP_ONE >= d1 * d2,
        tdiv(spec_fp_mul(field.strength, target_mass) * FP_ONE, d1 as int) <= i64::MAX,
    ensures
        force_at(field, d2, target_mass) < force_at(field, d1, target_mass),
{
    let num = spec_fp_mul(field.strength, target_mass);
    lemma_tdiv_nonneg(field.strength * target_mass, FP_ONE as int);
    assert(num >= 0);
    let n = num * FP_ONE;
    assert(n >= 0) by (nonlinear_arith)
        requires
            num >= 0,
            FP_ONE > 0,
            n == num * FP_ONE,
    ;
    lemma_tdiv_nonneg(n, d1 as int);
    lemma_tdiv_nonneg(n, d2 as int);
    lemma_tdiv_ordered_by_denominator(n, d1 as int, d2 as int);
    lemma_quotient_strictly_smaller(n, d1 as int, d2 as int);
    let q1 = n / (d1 as int);
    let q2 = n / (d2 as int);
    assert(sat64(q1) == q1 && sat64(q2) == q2);
}

/// Same for the `InverseSquare` falloff, with the premises stated over
/// the fixed-point squared distances (close distances can truncate to
/// the same square, on which no falloff law could distinguish them).
pub proof fn lemma_inverse_square_force_strictly_decreases(
    field: GravityField,
    d1: i64,
    d2: i64,
    target_mass: i64,
)
    requires
        field.falloff_type == GravityFalloff::InverseSquare,
        field.strength >= 0,
        target_mass >= 0,
        MIN_FIELD_DISTANCE <= d1 <= d2,
        spec_fp_mul(d1, d1) < spec_fp_mul(d2, d2),
        spec_fp_mul(field.strength, target_mass) * FP_ONE >= spec_fp_mul(d1, d1) * spec_fp_mul(
            d2,
            d2,
        ),
        tdiv(spec_fp_mul(field.strength, target_mass) * FP_ONE, spec_fp_mul(d1, d1) as int)
            <= i64::MAX,
    ensures
        force_at(field, d2, target_mass) < force_at(field, d1, target_mass),
{
    let num = spec_fp_mul(field.strength, target_mass);
    lemma_tdiv_nonneg(field.strength * target_mass, FP_ONE as int);
    assert(num >= 0);
    let n = num * FP_ONE;
    assert(n >= 0) by (nonlinear_arith)
        requires
            num >= 0,
            FP_ONE > 0,
            n == num * FP_ONE,
    ;
    let s1 = spec_fp_mul(d1, d1);
    let s2 = spec_fp_mul(d2, d2);
    lemma_dist_square_positive(d1);
    lemma_tdiv_nonneg(n, s1 as int);
    lemma_tdiv_nonneg(n, s2 as int);
    lemma_quotient_strictly_smaller(n, s1 as int, s2 as int);
    let q1 = n / (s1 as int);
    let q2 = n / (s2 as int);
    assert(sat64(q1) == q1 && sat64(q2) == q2);
}

/// With the dividend at least the product of two ordered positive
/// divisors, the two quotients cannot coincide: a shared quotient `q`
/// would be squeezed below `e1`, forcing the dividend under `e1 * e2`.
proof fn lemma_quotient_strictly_smaller(n: int, e1: int, e2: int)
    requires
        n >= 0,
        0 < e1 < e2,
        n >= e1 * e2,
    ensures
        n / e2 < n / e1,
{
    vstd::arithmetic::div_mod::lemma_div_is_ordered_by_denominator(n, e1, e2);
    let q1 = n / e1;
    let q2 = n / e2;
    if q1 == q2 {
        vstd::arithmetic::div_mod::lemma_fundamental_div_mod(n, e1);
        vstd::arithmetic::div_mod::lemma_fundamental_div_mod(n, e2);
        vstd::arithmetic::div_mod::lemma_div_pos_is_pos(n, e1);
        assert(n % e1 < e1);
        assert(n % e2 >= 0);
        assert(false) by (nonlinear_arith)
            requires
                n == e1 * q1 + n % e1,
                n == e2 * q2 + n % e2,
                q1 == q2,
                0 <= n % e1 < e1,
                0 <= n % e2,
                0 <= q1,
                0 < e1 < e2,
                n >= e1 * e2,
        ;
    }
}

} // verus!
