//! Collision shapes and the pairwise intersection, contact-point,
//! penetration and normal computations.
//!
//! All tests work on center-based positions; rectangles are converted to
//! min/max bounds internally.  Overlap tests compare exact squared
//! distances, so they never lose a collision to rounding.

use vstd::prelude::*;
use crate::fp::{
    fp_add, fp_max, fp_min, fp_sub, int_div, spec_fp_add, spec_fp_max, spec_fp_min, spec_fp_sub,
    spec_int_div,
};
use crate::vec2::{dist2, spec_dist, spec_unit_toward, unit_toward, Vec2};

verus! {

/// Geometric primitive attached to a body: an axis-aligned rectangle
/// (width and height in world units) or a circle.
#[derive(Clone, Copy, Debug, PartialEq, Eq, Structural)]
pub enum CollisionShape {
    Rectangle { width: i64, height: i64 },
    Circle { radius: i64 },
}

/// A positioned shape.  `position` is the shape's center and mirrors the
/// owning body's position; `is_trigger` is carried data that collision
/// resolution does not consult.
#[derive(Clone, Copy, Debug, PartialEq, Eq, Structural)]
pub struct Collider {
    pub position: Vec2,
    pub shape: CollisionShape,
    pub is_trigger: bool,
}

/// Outcome of a contact-point query.
#[derive(Clone, Copy, Debug, PartialEq, Eq, Structural)]
pub struct CollisionResult {
    pub collided: bool,
    pub contact_point: Vec2,
}

impl CollisionResult {
    pub open spec fn spec_none() -> CollisionResult {
        CollisionResult { collided: false, contact_point: Vec2 { x: 0, y: 0 } }
    }

    #[verifier::when_used_as_spec(spec_none)]
    pub fn none() -> (r: CollisionResult)
        ensures
            r == CollisionResult::spec_none(),
    {
        CollisionResult { collided: false, contact_point: Vec2::zero() }
    }

    pub open spec fn spec_hit(point: Vec2) -> CollisionResult {
        CollisionResult { collided: true, contact_point: point }
    }

    #[verifier::when_used_as_spec(spec_hit)]
    pub fn hit(point: Vec2) -> (r: CollisionResult)
        ensures
            r == CollisionResult::spec_hit(point),
    {
        CollisionResult { collided: true, contact_point: point }
    }
}

impl Collider {
    pub open spec fn spec_new_rect(x: i64, y: i64, width: i64, height: i64) -> Collider {
        Collider {
            position: Vec2 { x, y },
            shape: CollisionShape::Rectangle { width, height },
            is_trigger: false,
        }
    }

    #[verifier::when_used_as_spec(spec_new_rect)]
    pub fn new_rect(x: i64, y: i64, width: i64, height: i64) -> (r: Collider)
        ensures
            r == Collider::spec_new_rect(x, y, width, height),
    {
        Collider {
            position: Vec2::new(x, y),
            shape: CollisionShape::Rectangle { width, height },
            is_trigger: false,
        }
    }

    pub open spec fn spec_new_circle(x: i64, y: i64, radius: i64) -> Collider {
        Collider {
            position: Vec2 { x, y },
            shape: CollisionShape::Circle { radius },
            is_trigger: false,
        }
    }

    #[verifier::when_used_as_spec(spec_new_circle)]
    pub fn new_circle(x: i64, y: i64, radius: i64) -> (r: Collider)
        ensures
            r == Collider::spec_new_circle(x, y, radius),
    {
        Collider {
            position: Vec2::new(x, y),
            shape: CollisionShape::Circle { radius },
            is_trigger: false,
        }
    }
}

/// Lower-left corner of a center-based rectangle.
pub open spec fn rect_min(pos: Vec2, width: i64, height: i64) -> Vec2 {
    Vec2 {
        x: spec_fp_sub(pos.x, spec_int_div(width, 2)),
        y: spec_fp_sub(pos.y, spec_int_div(height, 2)),
    }
}

/// Upper-right corner of a center-based rectangle.
pub open spec fn rect_max(pos: Vec2, width: i64, height: i64) -> Vec2 {
    Vec2 {
        x: spec_fp_add(pos.x, spec_int_div(width, 2)),
        y: spec_fp_add(pos.y, spec_int_div(height, 2)),
    }
}

/// `v` clamped into `[lo, hi]` the way the shape code does it:
/// first raised to `lo`, then lowered to `hi`.
pub open spec fn clamp_to(v: i64, lo: i64, hi: i64) -> i64 {
    spec_fp_min(spec_fp_max(v, lo), hi)
}

/// The point of the rectangle closest to `c` (its center clamped into the
/// rectangle's bounds).
pub open spec fn closest_on_rect(pos: Vec2, width: i64, height: i64, c: Vec2) -> Vec2 {
    let lo = rect_min(pos, width, height);
    let hi = rect_max(pos, width, height);
    Vec2 { x: clamp_to(c.x, lo.x, hi.x), y: clamp_to(c.y, lo.y, hi.y) }
}

/// Axis-aligned overlap test on strict inequalities.
pub open spec fn aabb_overlaps(p1: Vec2, w1: i64, h1: i64, p2: Vec2, w2: i64, h2: i64) -> bool {
    let min1 = rect_min(p1, w1, h1);
    let max1 = rect_max(p1, w1, h1);
    let min2 = rect_min(p2, w2, h2);
    let max2 = rect_max(p2, w2, h2);
    min1.x < max2.x && max1.x > min2.x && min1.y < max2.y && max1.y > min2.y
}

/// Circles overlap when the exact squared center distance is at most the
/// squared radius sum.
pub open spec fn circles_overlap(p1: Vec2, r1: i64, p2: Vec2, r2: i64) -> bool {
    dist2(p1, p2) <= (r1 + r2) * (r1 + r2)
}

/// Rectangle and circle overlap when the circle's center is within its
/// radius of the closest rectangle point.
pub open spec fn aabb_circle_overlap(
    rect_pos: Vec2,
    width: i64,
    height: i64,
    circle_pos: Vec2,
    radius: i64,
) -> bool {
    let closest = closest_on_rect(rect_pos, width, height, circle_pos);
    dist2(closest, circle_pos) <= radius * radius
}

/// Whether two colliders overlap, for all four shape pairings.
pub open spec fn collides(a: Collider, b: Collider) -> bool {
    match (a.shape, b.shape) {
        (
            CollisionShape::Rectangle { width: w1, height: h1 },
            CollisionShape::Rectangle { width: w2, height: h2 },
        ) => aabb_overlaps(a.position, w1, h1, b.position, w2, h2),
        (CollisionShape::Circle { radius: r1 }, CollisionShape::Circle { radius: r2 }) => {
            circles_overlap(a.position, r1, b.position, r2)
        },
        (CollisionShape::Rectangle { width, height }, CollisionShape::Circle { radius }) => {
            aabb_circle_overlap(a.position, width, height, b.position, radius)
        },
        (CollisionShape::Circle { radius }, CollisionShape::Rectangle { width, height }) => {
            aabb_circle_overlap(b.position, width, height, a.position, radius)
        },
    }
}

/// Exact test `dist2(a, b) <= (r1 + r2)^2`, computed wide.
fn dist2_le_rad2(a: Vec2, b: Vec2, r1: i64, r2: i64) -> (res: bool)
    ensures
        res == (dist2(a, b) <= (r1 + r2) * (r1 + r2)),
{
    let dx: i128 = (b.x as i128) - (a.x as i128);
    let dy: i128 = (b.y as i128) - (a.y as i128);
    let dxa: u128 = if dx < 0 {
        (-dx) as u128
    } else {
        dx as u128
    };
    let dya: u128 = if dy < 0 {
        (-dy) as u128
    } else {
        dy as u128
    };
    let rs: i128 = (r1 as i128) + (r2 as i128);
    let rsa: u128 = if rs < 0 {
        (-rs) as u128
    } else {
        rs as u128
    };
    proof {
        assert(dxa * dxa == dx * dx && dxa * dxa <= u128::MAX) by (nonlinear_arith)
            requires
                dxa == dx || dxa == -(dx as int),
                0 <= dxa < 0x1_0000_0000_0000_0000,
        ;
        assert(dya * dya == dy * dy && dya * dya <= u128::MAX) by (nonlinear_arith)
            requires
                dya == dy || dya == -(dy as int),
                0 <= dya < 0x1_0000_0000_0000_0000,
        ;
        assert(rsa * rsa == rs * rs) by (nonlinear_arith)
            requires
                rsa == rs || rsa == -(rs as int),
        ;
    }
    let sx: u128 = dxa * dxa;
    let sy: u128 = dya * dya;
    // the squared distance and the squared radius sum both fit in 129 bits;
    // keep the 129th bit of each beside its low 128 bits
    let sl: u128 = sx.wrapping_add(sy);
    let sc: bool = sl < sx;
    proof {
        assert(sc ==> sx + sy == 0x1_0000_0000_0000_0000_0000_0000_0000_0000 + sl);
        assert(!sc ==> sx + sy == sl);
    }
    let (rc, rl): (bool, u128) = if rsa == 0x1_0000_0000_0000_0000 {
        proof {
            assert(rsa * rsa == 0x1_0000_0000_0000_0000_0000_0000_0000_0000) by (nonlinear_arith)
                requires
                    rsa == 0x1_0000_0000_0000_0000,
            ;
        }
        (true, 0)
    } else {
        proof {
            assert(rsa * rsa <= u128::MAX) by (nonlinear_arith)
                requires
                    0 <= rsa < 0x1_0000_0000_0000_0000,
            ;
        }
        (false, rsa * rsa)
    };
    if sc == rc {
        sl <= rl
    } else {
        rc
    }
}

/// Exact test `dist2(a, b) < t`.
fn dist2_lt(a: Vec2, b: Vec2, t: u128) -> (res: bool)
    ensures
        res == (dist2(a, b) < t),
{
    let dx: i128 = (b.x as i128) - (a.x as i128);
    let dy: i128 = (b.y as i128) - (a.y as i128);
    let dxa: u128 = if dx < 0 {
        (-dx) as u128
    } else {
        dx as u128
    };
    let dya: u128 = if dy < 0 {
        (-dy) as u128
    } else {
        dy as u128
    };
    proof {
        assert(dxa * dxa == dx * dx && dxa * dxa <= u128::MAX) by (nonlinear_arith)
            requires
                dxa == dx || dxa == -(dx as int),
                0 <= dxa < 0x1_0000_0000_0000_0000,
        ;
        assert(dya * dya == dy * dy && dya * dya <= u128::MAX) by (nonlinear_arith)
            requires
                dya == dy || dya == -(dy as int),
                0 <= dya < 0x1_0000_0000_0000_0000,
        ;
    }
    let sx: u128 = dxa * dxa;
    let sy: u128 = dya * dya;
    match sx.checked_add(sy) {
        Some(s) => s < t,
        None => false,
    }
}

fn aabb_vs_aabb(p1: Vec2, w1: i64, h1: i64, p2: Vec2, w2: i64, h2: i64) -> (r: bool)
    ensures
        r == aabb_overlaps(p1, w1, h1, p2, w2, h2),
{
    let min1x = fp_sub(p1.x, int_div(w1, 2));
    let max1x = fp_add(p1.x, int_div(w1, 2));
    let min1y = fp_sub(p1.y, int_div(h1, 2));
    let max1y = fp_add(p1.y, int_div(h1, 2));
    let min2x = fp_sub(p2.x, int_div(w2, 2));
    let max2x = fp_add(p2.x, int_div(w2, 2));
    let min2y = fp_sub(p2.y, int_div(h2, 2));
    let max2y = fp_add(p2.y, int_div(h2, 2));
    min1x < max2x && max1x > min2x && min1y < max2y && max1y > min2y
}

fn closest_point_on_rect(pos: Vec2, width: i64, height: i64, c: Vec2) -> (r: Vec2)
    ensures
        r == closest_on_rect(pos, width, height, c),
{
    let lox = fp_sub(pos.x, int_div(width, 2));
    let hix = fp_add(pos.x, int_div(width, 2));
    let loy = fp_sub(pos.y, int_div(height, 2));
    let hiy = fp_add(pos.y, int_div(height, 2));
    Vec2::new(fp_min(fp_max(c.x, lox), hix), fp_min(fp_max(c.y, loy), hiy))
}

/// Overlap test for all four shape pairings (symmetric pairs by swap).
pub fn check_collision(a: &Collider, b: &Collider) -> (r: bool)
    ensures
        r == collides(*a, *b),
{
    match (a.shape, b.shape) {
        (
            CollisionShape::Rectangle { width: w1, height: h1 },
            CollisionShape::Rectangle { width: w2, height: h2 },
        ) => aabb_vs_aabb(a.position, w1, h1, b.position, w2, h2),
        (CollisionShape::Circle { radius: r1 }, CollisionShape::Circle { radius: r2 }) => {
            dist2_le_rad2(a.position, b.position, r1, r2)
        },
        (CollisionShape::Rectangle { width, height }, CollisionShape::Circle { radius }) => {
            let closest = closest_point_on_rect(a.position, width, height, b.position);
            dist2_le_rad2(closest, b.position, radius, 0)
        },
        (CollisionShape::Circle { radius }, CollisionShape::Rectangle { width, height }) => {
            let closest = closest_point_on_rect(b.position, width, height, a.position);
            dist2_le_rad2(closest, a.position, radius, 0)
        },
    }
}

/// The contact point reported for an overlapping pair: center of the
/// overlap region for two rectangles, the point at distance `r1` along the
/// center line for two circles, and the clamped rectangle point for a
/// rectangle/circle pair.
pub open spec fn contact_point(a: Collider, b: Collider) -> Vec2 {
    match (a.shape, b.shape) {
        (
            CollisionShape::Rectangle { width: w1, height: h1 },
            CollisionShape::Rectangle { width: w2, height: h2 },
        ) => {
            let min1 = rect_min(a.position, w1, h1);
            let max1 = rect_max(a.position, w1, h1);
            let min2 = rect_min(b.position, w2, h2);
            let max2 = rect_max(b.position, w2, h2);
            let left = spec_fp_max(min1.x, min2.x);
            let right = spec_fp_min(max1.x, max2.x);
            let top = spec_fp_max(min1.y, min2.y);
            let bottom = spec_fp_min(max1.y, max2.y);
            Vec2 {
                x: spec_int_div(spec_fp_add(left, right), 2),
                y: spec_int_div(spec_fp_add(top, bottom), 2),
            }
        },
        (CollisionShape::Circle { radius: r1 }, CollisionShape::Circle { radius: r2 }) => {
            a.position.spec_add(spec_unit_toward(a.position, b.position).spec_scale(r1))
        },
        (CollisionShape::Rectangle { width, height }, CollisionShape::Circle { radius }) => {
            closest_on_rect(a.position, width, height, b.position)
        },
        (CollisionShape::Circle { radius }, CollisionShape::Rectangle { width, height }) => {
            closest_on_rect(b.position, width, height, a.position)
        },
    }
}

/// Overlap test that also reports the contact point of a hit.
pub fn check_collision_with_point(a: &Collider, b: &Collider) -> (r: CollisionResult)
    ensures
        r.collided == collides(*a, *b),
        r.collided ==> r.contact_point == contact_point(*a, *b),
        !r.collided ==> r == CollisionResult::spec_none(),
{
    match (a.shape, b.shape) {
        (
            CollisionShape::Rectangle { width: w1, height: h1 },
            CollisionShape::Rectangle { width: w2, height: h2 },
        ) => {
            if aabb_vs_aabb(a.position, w1, h1, b.position, w2, h2) {
                let min1x = fp_sub(a.position.x, int_div(w1, 2));
                let max1x = fp_add(a.position.x, int_div(w1, 2));
                let min1y = fp_sub(a.position.y, int_div(h1, 2));
                let max1y = fp_add(a.position.y, int_div(h1, 2));
                let min2x = fp_sub(b.position.x, int_div(w2, 2));
                let max2x = fp_add(b.position.x, int_div(w2, 2));
                let min2y = fp_sub(b.position.y, int_div(h2, 2));
                let max2y = fp_add(b.position.y, int_div(h2, 2));
                let left = fp_max(min1x, min2x);
                let right = fp_min(max1x, max2x);
                let top = fp_max(min1y, min2y);
                let bottom = fp_min(max1y, max2y);
                CollisionResult::hit(
                    Vec2::new(int_div(fp_add(left, right), 2), int_div(fp_add(top, bottom), 2)),
                )
            } else {
                CollisionResult::none()
            }
        },
        (CollisionShape::Circle { radius: r1 }, CollisionShape::Circle { radius: r2 }) => {
            if dist2_le_rad2(a.position, b.position, r1, r2) {
                let direction = unit_toward(a.position, b.position);
                CollisionResult::hit(a.position.add(direction.scale(r1)))
            } else {
                CollisionResult::none()
            }
        },
        (CollisionShape::Rectangle { width, height }, CollisionShape::Circle { radius }) => {
            let closest = closest_point_on_rect(a.position, width, height, b.position);
            if dist2_le_rad2(closest, b.position, radius, 0) {
                CollisionResult::hit(closest)
            } else {
                CollisionResult::none()
            }
        },
        (CollisionShape::Circle { radius }, CollisionShape::Rectangle { width, height }) => {
            let closest = closest_point_on_rect(b.position, width, height, a.position);
            if dist2_le_rad2(closest, a.position, radius, 0) {
                CollisionResult::hit(closest)
            } else {
                CollisionResult::none()
            }
        },
    }
}

/// Penetration depth between two overlapping colliders: radius-sum minus
/// center distance for circles (clamped at zero), radius minus
/// closest-point distance for a rectangle/circle pair, and the smaller
/// axis overlap for two rectangles.
pub open spec fn penetration_of(a: Collider, b: Collider) -> i64 {
    match (a.shape, b.shape) {
        (CollisionShape::Circle { radius: r1 }, CollisionShape::Circle { radius: r2 }) => {
            spec_fp_max(spec_fp_sub(spec_fp_add(r1, r2), spec_dist(a.position, b.position)), 0)
        },
        (CollisionShape::Rectangle { width: w1, height: h1 }, CollisionShape::Circle {
            radius: r2,
        }) => {
            let closest = closest_on_rect(a.position, w1, h1, b.position);
            spec_fp_sub(r2, spec_dist(closest, b.position))
        },
        (CollisionShape::Circle { radius: r1 }, CollisionShape::Rectangle {
            width: w2,
            height: h2,
        }) => {
            let closest = closest_on_rect(b.position, w2, h2, a.position);
            spec_fp_sub(r1, spec_dist(closest, a.position))
        },
        (
            CollisionShape::Rectangle { width: w1, height: h1 },
            CollisionShape::Rectangle { width: w2, height: h2 },
        ) => {
            let min1 = rect_min(a.position, w1, h1);
            let max1 = rect_max(a.position, w1, h1);
            let min2 = rect_min(b.position, w2, h2);
            let max2 = rect_max(b.position, w2, h2);
            let overlap_x = spec_fp_sub(spec_fp_min(max1.x, max2.x), spec_fp_max(min1.x, min2.x));
            let overlap_y = spec_fp_sub(spec_fp_min(max1.y, max2.y), spec_fp_max(min1.y, min2.y));
            spec_fp_min(overlap_x, overlap_y)
        },
    }
}

/// Penetration depth between two colliders.
pub fn calculate_penetration(collider1: &Collider, collider2: &Collider) -> (r: i64)
    ensures
        r == penetration_of(*collider1, *collider2),
{
    match (collider1.shape, collider2.shape) {
        (CollisionShape::Circle { radius: r1 }, CollisionShape::Circle { radius: r2 }) => {
            let d = crate::vec2::dist(collider1.position, collider2.position);
            fp_max(fp_sub(fp_add(r1, r2), d), 0)
        },
        (CollisionShape::Rectangle { width: w1, height: h1 }, CollisionShape::Circle {
            radius: r2,
        }) => {
            let closest = closest_point_on_rect(collider1.position, w1, h1, collider2.position);
            let d = crate::vec2::dist(closest, collider2.position);
            fp_sub(r2, d)
        },
        (CollisionShape::Circle { radius: r1 }, CollisionShape::Rectangle {
            width: w2,
            height: h2,
        }) => {
            let closest = closest_point_on_rect(collider2.position, w2, h2, collider1.position);
            let d = crate::vec2::dist(closest, collider1.position);
            fp_sub(r1, d)
        },
        (
            CollisionShape::Rectangle { width: w1, height: h1 },
            CollisionShape::Rectangle { width: w2, height: h2 },
        ) => {
            let min1x = fp_sub(collider1.position.x, int_div(w1, 2));
            let max1x = fp_add(collider1.position.x, int_div(w1, 2));
            let min1y = fp_sub(collider1.position.y, int_div(h1, 2));
            let max1y = fp_add(collider1.position.y, int_div(h1, 2));
            let min2x = fp_sub(collider2.position.x, int_div(w2, 2));
            let max2x = fp_add(collider2.position.x, int_div(w2, 2));
            let min2y = fp_sub(collider2.position.y, int_div(h2, 2));
            let max2y = fp_add(collider2.position.y, int_div(h2, 2));
            let overlap_x = fp_sub(fp_min(max1x, max2x), fp_max(min1x, min2x));
            let overlap_y = fp_sub(fp_min(max1y, max2y), fp_max(min1y, min2y));
            fp_min(overlap_x, overlap_y)
        },
    }
}

/// Squared-distance threshold (in fixed-point squared units) under which a
/// rectangle-to-circle direction counts as degenerate.
pub const DEGENERATE_DIST2: u128 = 1_000_000_000;

/// Normal pointing from a rectangle collider toward a circle collider:
/// the direction from the clamped rectangle point to the circle center,
/// or straight up when that direction is degenerate (or the first collider
/// is not a rectangle).
pub open spec fn rect_to_circle_normal_of(rect: Collider, circle: Collider) -> Vec2 {
    match rect.shape {
        CollisionShape::Rectangle { width, height } => {
            let closest = closest_on_rect(rect.position, width, height, circle.position);
            if dist2(closest, circle.position) < DEGENERATE_DIST2 {
                Vec2 { x: 0, y: crate::fp::FP_ONE }
            } else {
                spec_unit_toward(closest, circle.position)
            }
        },
        CollisionShape::Circle { radius } => Vec2 { x: 0, y: crate::fp::FP_ONE },
    }
}

pub fn rect_to_circle_normal(rect: &Collider, circle: &Collider) -> (r: Vec2)
    ensures
        r == rect_to_circle_normal_of(*rect, *circle),
{
    match rect.shape {
        CollisionShape::Rectangle { width, height } => {
            let closest = closest_point_on_rect(rect.position, width, height, circle.position);
            if dist2_lt(closest, circle.position, DEGENERATE_DIST2) {
                Vec2::new(0, crate::fp::FP_ONE)
            } else {
                unit_toward(closest, circle.position)
            }
        },
        CollisionShape::Circle { .. } => Vec2::new(0, crate::fp::FP_ONE),
    }
}

/// The collision normal for a pair: for rectangle/circle pairs the normal
/// points from the rectangle toward the circle; otherwise it is the unit
/// vector from the first position toward the second (straight up when the
/// positions coincide).
pub open spec fn collision_normal_of(a: Collider, b: Collider, pa: Vec2, pb: Vec2) -> Vec2 {
    match (a.shape, b.shape) {
        (CollisionShape::Circle { radius }, CollisionShape::Rectangle { width, height }) => {
            rect_to_circle_normal_of(b, a)
        },
        (CollisionShape::Rectangle { width, height }, CollisionShape::Circle { radius }) => {
            rect_to_circle_normal_of(a, b)
        },
        _ => spec_unit_toward(pa, pb),
    }
}

pub fn calculate_collision_normal(a: &Collider, b: &Collider, pa: Vec2, pb: Vec2) -> (r: Vec2)
    ensures
        r == collision_normal_of(*a, *b, pa, pb),
{
    match (a.shape, b.shape) {
        (CollisionShape::Circle { .. }, CollisionShape::Rectangle { .. }) => {
            rect_to_circle_normal(b, a)
        },
        (CollisionShape::Rectangle { .. }, CollisionShape::Circle { .. }) => {
            rect_to_circle_normal(a, b)
        },
        _ => unit_toward(pa, pb),
    }
}

} // verus!
