//! 2D vectors over fixed-point scalars.

use vstd::prelude::*;
use crate::fp::{
    clamp_i128, div_i128, fp_add, fp_mul, fp_neg, fp_sub, isqrt_u128, sat64, spec_fp_add,
    spec_fp_mul, spec_fp_neg, spec_fp_sub, sqrt_floor, tdiv, FP_ONE,
};

verus! {

/// A 2D vector whose components are fixed-point scalars (millionths).
#[derive(Clone, Copy, Debug, PartialEq, Eq, Structural)]
pub struct Vec2 {
    pub x: i64,
    pub y: i64,
}

/// Exact squared distance between two points, as a mathematical integer
/// (no truncation, no saturation).
pub open spec fn dist2(a: Vec2, b: Vec2) -> int {
    (b.x - a.x) * (b.x - a.x) + (b.y - a.y) * (b.y - a.y)
}

impl Vec2 {
    pub open spec fn spec_new(x: i64, y: i64) -> Vec2 {
        Vec2 { x, y }
    }

    #[verifier::when_used_as_spec(spec_new)]
    pub fn new(x: i64, y: i64) -> (r: Vec2)
        ensures
            r == Vec2::spec_new(x, y),
    {
        Vec2 { x, y }
    }

    pub open spec fn spec_zero() -> Vec2 {
        Vec2 { x: 0, y: 0 }
    }

    #[verifier::when_used_as_spec(spec_zero)]
    pub fn zero() -> (r: Vec2)
        ensures
            r == Vec2::spec_zero(),
    {
        Vec2 { x: 0, y: 0 }
    }

    pub open spec fn spec_add(self, o: Vec2) -> Vec2 {
        Vec2 { x: spec_fp_add(self.x, o.x), y: spec_fp_add(self.y, o.y) }
    }

    /// Componentwise saturating addition.
    #[verifier::when_used_as_spec(spec_add)]
    pub fn add(self, o: Vec2) -> (r: Vec2)
        ensures
            r == self.spec_add(o),
    {
        Vec2 { x: fp_add(self.x, o.x), y: fp_add(self.y, o.y) }
    }

    pub open spec fn spec_sub(self, o: Vec2) -> Vec2 {
        Vec2 { x: spec_fp_sub(self.x, o.x), y: spec_fp_sub(self.y, o.y) }
    }

    /// Componentwise saturating subtraction.
    #[verifier::when_used_as_spec(spec_sub)]
    pub fn sub(self, o: Vec2) -> (r: Vec2)
        ensures
            r == self.spec_sub(o),
    {
        Vec2 { x: fp_sub(self.x, o.x), y: fp_sub(self.y, o.y) }
    }

    pub open spec fn spec_neg(self) -> Vec2 {
        Vec2 { x: spec_fp_neg(self.x), y: spec_fp_neg(self.y) }
    }

    #[verifier::when_used_as_spec(spec_neg)]
    pub fn neg(self) -> (r: Vec2)
        ensures
            r == self.spec_neg(),
    {
        Vec2 { x: fp_neg(self.x), y: fp_neg(self.y) }
    }

    pub open spec fn spec_scale(self, s: i64) -> Vec2 {
        Vec2 { x: spec_fp_mul(self.x, s), y: spec_fp_mul(self.y, s) }
    }

    /// Componentwise fixed-point multiplication by a scalar.
    #[verifier::when_used_as_spec(spec_scale)]
    pub fn scale(self, s: i64) -> (r: Vec2)
        ensures
            r == self.spec_scale(s),
    {
        Vec2 { x: fp_mul(self.x, s), y: fp_mul(self.y, s) }
    }

    pub open spec fn spec_div_scale(self, s: i64) -> Vec2
        recommends
            s > 0,
    {
        Vec2 { x: crate::fp::spec_fp_div(self.x, s), y: crate::fp::spec_fp_div(self.y, s) }
    }

    /// Componentwise fixed-point division by a positive scalar.
    #[verifier::when_used_as_spec(spec_div_scale)]
    pub fn div_scale(self, s: i64) -> (r: Vec2)
        requires
            s > 0,
        ensures
            r == self.spec_div_scale(s),
    {
        Vec2 { x: crate::fp::fp_div(self.x, s), y: crate::fp::fp_div(self.y, s) }
    }

    pub open spec fn spec_dot(self, o: Vec2) -> i64 {
        spec_fp_add(spec_fp_mul(self.x, o.x), spec_fp_mul(self.y, o.y))
    }

    /// Fixed-point dot product.
    #[verifier::when_used_as_spec(spec_dot)]
    pub fn dot(self, o: Vec2) -> (r: i64)
        ensures
            r == self.spec_dot(o),
    {
        fp_add(fp_mul(self.x, o.x), fp_mul(self.y, o.y))
    }

    pub open spec fn spec_cross(self, o: Vec2) -> i64 {
        spec_fp_sub(spec_fp_mul(self.x, o.y), spec_fp_mul(self.y, o.x))
    }

    /// Fixed-point 2D cross product (`self.x * o.y - self.y * o.x`).
    #[verifier::when_used_as_spec(spec_cross)]
    pub fn cross(self, o: Vec2) -> (r: i64)
        ensures
            r == self.spec_cross(o),
    {
        fp_sub(fp_mul(self.x, o.y), fp_mul(self.y, o.x))
    }

    /// Counter-clockwise perpendicular, `(-y, x)`.
    pub open spec fn spec_perp(self) -> Vec2 {
        Vec2 { x: spec_fp_neg(self.y), y: self.x }
    }

    #[verifier::when_used_as_spec(spec_perp)]
    pub fn perp(self) -> (r: Vec2)
        ensures
            r == self.spec_perp(),
    {
        Vec2 { x: fp_neg(self.y), y: self.x }
    }

    pub open spec fn spec_length(&self) -> i64 {
        sat64(sqrt_floor(self.x * self.x + self.y * self.y))
    }

    /// Euclidean length, rounded down, saturated.
    #[verifier::when_used_as_spec(spec_length)]
    pub fn length(&self) -> (r: i64)
        ensures
            r == self.spec_length(),
    {
        let r = dist(Vec2::zero(), *self);
        proof {
            assert(dist2(Vec2::spec_zero(), *self) == self.x * self.x + self.y * self.y)
                by (nonlinear_arith);
        }
        r
    }
}

pub open spec fn spec_dist(a: Vec2, b: Vec2) -> i64 {
    sat64(sqrt_floor(dist2(a, b)))
}

/// Distance between two points, rounded down, saturated.  The difference is
/// taken exactly (wide), so very distant points still get a correct distance.
#[verifier::when_used_as_spec(spec_dist)]
pub fn dist(a: Vec2, b: Vec2) -> (r: i64)
    ensures
        r == spec_dist(a, b),
{
    let dx: i128 = (b.x as i128) - (a.x as i128);
    let dy: i128 = (b.y as i128) - (a.y as i128);
    let dxa: u128 = if dx < 0 {
        (-dx) as u128
    } else {
        dx as u128
    };
    let dya: u128 = if dy < 0 {
        (-dy) as u128
    } else {
        dy as u128
    };
    proof {
        assert(dxa * dxa == dx * dx && dxa * dxa <= u128::MAX) by (nonlinear_arith)
            requires
                dxa == dx || dxa == -(dx as int),
                0 <= dxa < 0x1_0000_0000_0000_0000,
        ;
        assert(dya * dya == dy * dy && dya * dya <= u128::MAX) by (nonlinear_arith)
            requires
                dya == dy || dya == -(dy as int),
                0 <= dya < 0x1_0000_0000_0000_0000,
        ;
    }
    let sx: u128 = dxa * dxa;
    let sy: u128 = dya * dya;
    match sx.checked_add(sy) {
        Some(s) => {
            let r = isqrt_u128(s);
            if r > i64::MAX as u64 {
                i64::MAX
            } else {
                r as i64
            }
        },
        None => {
            proof {
                lemma_dist_overflow_saturates(dist2(a, b));
            }
            i64::MAX
        },
    }
}

/// When the exact squared distance exceeds the 128-bit range, its square
/// root already exceeds the `i64` range, so the saturated distance is `i64::MAX`.
proof fn lemma_dist_overflow_saturates(d2: int)
    requires
        d2 > u128::MAX,
    ensures
        sat64(sqrt_floor(d2)) == i64::MAX,
{
    crate::fp::lemma_sqrt_floor_exists(d2);
    let r = sqrt_floor(d2);
    assert(r > i64::MAX) by (nonlinear_arith)
        requires
            0 <= r,
            d2 < (r + 1) * (r + 1),
            d2 > u128::MAX,
    ;
}

/// The unit vector pointing from `a` toward `b` (components scaled by
/// `FP_ONE`), falling back to straight up when the two points coincide or
/// are degenerately far apart.
pub open spec fn spec_unit_toward(a: Vec2, b: Vec2) -> Vec2 {
    let dx = b.x - a.x;
    let dy = b.y - a.y;
    let d2 = dist2(a, b);
    if d2 == 0 || d2 > u128::MAX {
        Vec2 { x: 0, y: FP_ONE }
    } else {
        let len = sqrt_floor(d2);
        Vec2 { x: sat64(tdiv(dx * FP_ONE, len)), y: sat64(tdiv(dy * FP_ONE, len)) }
    }
}

#[verifier::when_used_as_spec(spec_unit_toward)]
pub fn unit_toward(a: Vec2, b: Vec2) -> (r: Vec2)
    ensures
        r == spec_unit_toward(a, b),
{
    let dx: i128 = (b.x as i128) - (a.x as i128);
    let dy: i128 = (b.y as i128) - (a.y as i128);
    let dxa: u128 = if dx < 0 {
        (-dx) as u128
    } else {
        dx as u128
    };
    let dya: u128 = if dy < 0 {
        (-dy) as u128
    } else {
        dy as u128
    };
    proof {
        assert(dxa * dxa == dx * dx && dxa * dxa <= u128::MAX) by (nonlinear_arith)
            requires
                dxa == dx || dxa == -(dx as int),
                0 <= dxa < 0x1_0000_0000_0000_0000,
        ;
        assert(dya * dya == dy * dy && dya * dya <= u128::MAX) by (nonlinear_arith)
            requires
                dya == dy || dya == -(dy as int),
                0 <= dya < 0x1_0000_0000_0000_0000,
        ;
    }
    let sx: u128 = dxa * dxa;
    let sy: u128 = dya * dya;
    match sx.checked_add(sy) {
        Some(s) => {
            if s == 0 {
                Vec2 { x: 0, y: FP_ONE }
            } else {
                let len = isqrt_u128(s);
                proof {
                    let d2 = dist2(a, b);
                    crate::fp::lemma_sqrt_floor_exists(d2);
                    assert(len >= 1) by (nonlinear_arith)
                        requires
                            len == sqrt_floor(d2),
                            0 <= len,
                            d2 >= 1,
                            d2 < (len + 1) * (len + 1),
                    ;
                }
                proof {
                    assert(i128::MIN <= dx * FP_ONE <= i128::MAX && i128::MIN <= dy * FP_ONE
                        <= i128::MAX) by (nonlinear_arith)
                        requires
                            -0x1_0000_0000_0000_0000 < dx < 0x1_0000_0000_0000_0000,
                            -0x1_0000_0000_0000_0000 < dy < 0x1_0000_0000_0000_0000,
                            FP_ONE == 1_000_000,
                    ;
                }
                let nx = clamp_i128(div_i128(dx * (FP_ONE as i128), len as i128));
                let ny = clamp_i128(div_i128(dy * (FP_ONE as i128), len as i128));
                Vec2 { x: nx, y: ny }
            }
        },
        None => Vec2 { x: 0, y: FP_ONE },
    }
}

} // verus!
