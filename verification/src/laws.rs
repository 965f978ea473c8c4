//! Engine-wide laws, stated over the same specification functions the
//! executable contracts use and proved once and for all.

use vstd::prelude::*;
use crate::fp::{
    lemma_tdiv_exact, lemma_tdiv_mul_cancel, lemma_tdiv_mul_le, lemma_tdiv_nonneg,
    lemma_tdiv_ordered, lemma_tdiv_ordered_by_denominator, lemma_tdiv_scale_cancel,
    lemma_tdiv_zero, spec_fp_add, spec_fp_div, spec_fp_mul, spec_fp_neg, spec_int_div, tdiv,
    FP_ONE,
};
use crate::physics_world::{
    candidate_pairs, gravity_sources, impulse_applied, integrated, inv_inertia_of, inv_mass_of,
    pair_resolution, resolved_over, roused, stepped, sub_stepped, with_forces, CollisionEvent,
};
use crate::rigid_body::{woken, BodyId, BodyType, Mass, RigidBody, MIN_MASS};
use crate::vec2::Vec2;

verus! {

/// Resolving a pair never moves a static body: waking is a no-op on it,
/// and impulses and positional corrections apply to dynamic bodies only.
pub proof fn lemma_pair_resolution_preserves_static(s: Seq<RigidBody>, i: int, j: int, idx: int)
    requires
        0 <= idx < s.len(),
        s[idx].body_type == BodyType::Static,
    ensures
        pair_resolution(s, i, j).0.len() == s.len(),
        pair_resolution(s, i, j).0[idx] == s[idx],
{
    lemma_pair_resolution_frame(s, i, j, idx);
}

/// Resolving pair `(i, j)` leaves every body untouched except a *dynamic*
/// body at `i` or `j`.
#[verifier::rlimit(100)]
pub proof fn lemma_pair_resolution_frame(s: Seq<RigidBody>, i: int, j: int, idx: int)
    requires
        0 <= idx < s.len(),
        idx == i || idx == j ==> s[idx].body_type != BodyType::Dynamic,
    ensures
        pair_resolution(s, i, j).0.len() == s.len(),
        pair_resolution(s, i, j).0[idx] == s[idx],
{
}

/// Resolving any list of pairs never moves a static body.
pub proof fn lemma_resolved_over_preserves_static(
    s: Seq<RigidBody>,
    events: Seq<CollisionEvent>,
    pairs: Seq<(usize, usize)>,
    k: int,
    idx: int,
)
    requires
        0 <= idx < s.len(),
        s[idx].body_type == BodyType::Static,
    ensures
        resolved_over(s, events, pairs, k).0.len() == s.len(),
        resolved_over(s, events, pairs, k).0[idx] == s[idx],
    decreases k,
{
    if k > 0 {
        lemma_resolved_over_preserves_static(s, events, pairs, k - 1, idx);
        let prev = resolved_over(s, events, pairs, k - 1).0;
        let p = pairs[k - 1];
        lemma_pair_resolution_preserves_static(prev, p.0 as int, p.1 as int, idx);
    }
}

/// A static body is completely unchanged by any number of simulation
/// sub-steps: it gathers no forces, is skipped by integration, and
/// absorbs no impulse or positional correction.
pub proof fn lemma_static_body_unmoved(
    s: Seq<RigidBody>,
    events: Seq<CollisionEvent>,
    gravity: Vec2,
    sleep_enabled: bool,
    sub_dt: i64,
    k: nat,
    idx: int,
)
    requires
        0 <= idx < s.len(),
        s[idx].body_type == BodyType::Static,
    ensures
        stepped(s, events, gravity, sleep_enabled, sub_dt, k).0.len() == s.len(),
        stepped(s, events, gravity, sleep_enabled, sub_dt, k).0[idx] == s[idx],
    decreases k,
{
    if k > 0 {
        lemma_static_body_unmoved(s, events, gravity, sleep_enabled, sub_dt, (k - 1) as nat, idx);
        let prev = stepped(s, events, gravity, sleep_enabled, sub_dt, (k - 1) as nat).0;
        lemma_sub_step_preserves_static(prev, gravity, sleep_enabled, sub_dt, idx);
    }
}

/// One sub-step leaves a static body untouched.
pub proof fn lemma_sub_step_preserves_static(
    s: Seq<RigidBody>,
    gravity: Vec2,
    sleep_enabled: bool,
    dt: i64,
    idx: int,
)
    requires
        0 <= idx < s.len(),
        s[idx].body_type == BodyType::Static,
    ensures
        sub_stepped(s, gravity, sleep_enabled, dt).0.len() == s.len(),
        sub_stepped(s, gravity, sleep_enabled, dt).0[idx] == s[idx],
{
    let sources = gravity_sources(s, s.len() as int);
    let forced = s.map_values(|b: RigidBody| with_forces(b, gravity, sources));
    let moved = forced.map_values(|b: RigidBody| integrated(b, dt, sleep_enabled));
    assert(forced[idx] == s[idx]);
    assert(moved[idx] == s[idx]);
    let pairs = candidate_pairs(moved, moved.len() as int);
    lemma_resolved_over_preserves_static(moved, Seq::empty(), pairs, pairs.len() as int, idx);
}

/// Resolving a pair can change velocities, positions and sleep state,
/// but never a body's id or its type.
#[verifier::rlimit(100)]
pub proof fn lemma_pair_resolution_preserves_identity(s: Seq<RigidBody>, i: int, j: int, idx: int)
    requires
        0 <= idx < s.len(),
    ensures
        pair_resolution(s, i, j).0.len() == s.len(),
        pair_resolution(s, i, j).0[idx].id == s[idx].id,
        pair_resolution(s, i, j).0[idx].body_type == s[idx].body_type,
{
}

/// The simulation step never creates, destroys, reorders or retypes
/// bodies: across any number of sub-steps, every index keeps its id and
/// its body type, so an id handed out at insertion stays valid.
pub proof fn lemma_step_preserves_identity(
    s: Seq<RigidBody>,
    events: Seq<CollisionEvent>,
    gravity: Vec2,
    sleep_enabled: bool,
    sub_dt: i64,
    k: nat,
    idx: int,
)
    requires
        0 <= idx < s.len(),
    ensures
        stepped(s, events, gravity, sleep_enabled, sub_dt, k).0.len() == s.len(),
        stepped(s, events, gravity, sleep_enabled, sub_dt, k).0[idx].id == s[idx].id,
        stepped(s, events, gravity, sleep_enabled, sub_dt, k).0[idx].body_type == s[
            idx
        ].body_type,
    decreases k,
{
    if k > 0 {
        lemma_step_preserves_identity(s, events, gravity, sleep_enabled, sub_dt, (k - 1) as nat, idx);
        let prev = stepped(s, events, gravity, sleep_enabled, sub_dt, (k - 1) as nat).0;
        lemma_sub_step_preserves_identity(prev, gravity, sleep_enabled, sub_dt, idx);
    }
}

/// One sub-step keeps every body's id and type.
pub proof fn lemma_sub_step_preserves_identity(
    s: Seq<RigidBody>,
    gravity: Vec2,
    sleep_enabled: bool,
    dt: i64,
    idx: int,
)
    requires
        0 <= idx < s.len(),
    ensures
        sub_stepped(s, gravity, sleep_enabled, dt).0.len() == s.len(),
        sub_stepped(s, gravity, sleep_enabled, dt).0[idx].id == s[idx].id,
        sub_stepped(s, gravity, sleep_enabled, dt).0[idx].body_type == s[idx].body_type,
{
    let sources = gravity_sources(s, s.len() as int);
    let forced = s.map_values(|b: RigidBody| with_forces(b, gravity, sources));
    let moved = forced.map_values(|b: RigidBody| integrated(b, dt, sleep_enabled));
    assert(moved[idx].id == s[idx].id && moved[idx].body_type == s[idx].body_type);
    let pairs = candidate_pairs(moved, moved.len() as int);
    lemma_resolved_over_preserves_identity(moved, Seq::empty(), pairs, pairs.len() as int, idx);
}

/// Resolving any list of pairs keeps every body's id and type.
pub proof fn lemma_resolved_over_preserves_identity(
    s: Seq<RigidBody>,
    events: Seq<CollisionEvent>,
    pairs: Seq<(usize, usize)>,
    k: int,
    idx: int,
)
    requires
        0 <= idx < s.len(),
    ensures
        resolved_over(s, events, pairs, k).0.len() == s.len(),
        resolved_over(s, events, pairs, k).0[idx].id == s[idx].id,
        resolved_over(s, events, pairs, k).0[idx].body_type == s[idx].body_type,
    decreases k,
{
    if k > 0 {
        lemma_resolved_over_preserves_identity(s, events, pairs, k - 1, idx);
        let prev = resolved_over(s, events, pairs, k - 1).0;
        let p = pairs[k - 1];
        lemma_pair_resolution_preserves_identity(prev, p.0 as int, p.1 as int, idx);
    }
}

/// A sleeping dynamic body gathers no force and is skipped by
/// integration: under zero applied force its velocity (and all other
/// state) cannot change outside collision resolution.
pub proof fn lemma_sleeping_body_rests(
    b: RigidBody,
    gravity: Vec2,
    sources: Seq<(BodyId, Vec2, crate::gravity::GravityField)>,
    dt: i64,
    sleep_enabled: bool,
)
    requires
        b.is_sleeping,
    ensures
        with_forces(b, gravity, sources) == b,
        b.body_type != BodyType::Kinematic ==> integrated(b, dt, sleep_enabled) == b,
{
}

/// Resolving pairs that never name index `idx` leaves the body at `idx`
/// untouched.
pub proof fn lemma_resolved_over_frame(
    s: Seq<RigidBody>,
    events: Seq<CollisionEvent>,
    pairs: Seq<(usize, usize)>,
    k: int,
    idx: int,
)
    requires
        0 <= idx < s.len(),
        forall|m: int|
            0 <= m < k ==> (#[trigger] pairs[m]).0 != idx && pairs[m].1 != idx,
    ensures
        resolved_over(s, events, pairs, k).0.len() == s.len(),
        resolved_over(s, events, pairs, k).0[idx] == s[idx],
    decreases k,
{
    if k > 0 {
        lemma_resolved_over_frame(s, events, pairs, k - 1, idx);
        let prev = resolved_over(s, events, pairs, k - 1).0;
        let p = pairs[k - 1];
        lemma_pair_resolution_frame(prev, p.0 as int, p.1 as int, idx);
    }
}

/// A sleeping dynamic body that no colliding pair touches is bit-for-bit
/// unchanged by a whole sub-step: asleep, it gathers no force, skips
/// integration, and — uncollided — receives no impulse or correction.
pub proof fn lemma_sleeping_uncollided_body_unchanged(
    s: Seq<RigidBody>,
    gravity: Vec2,
    sleep_enabled: bool,
    dt: i64,
    idx: int,
)
    requires
        0 <= idx < s.len(),
        s[idx].is_sleeping,
        s[idx].body_type == BodyType::Dynamic,
        ({
            let sources = gravity_sources(s, s.len() as int);
            let forced = s.map_values(|b: RigidBody| with_forces(b, gravity, sources));
            let moved = forced.map_values(|b: RigidBody| integrated(b, dt, sleep_enabled));
            let pairs = candidate_pairs(moved, moved.len() as int);
            forall|m: int|
                0 <= m < pairs.len() ==> (#[trigger] pairs[m]).0 != idx && pairs[m].1 != idx
        }),
    ensures
        sub_stepped(s, gravity, sleep_enabled, dt).0.len() == s.len(),
        sub_stepped(s, gravity, sleep_enabled, dt).0[idx] == s[idx],
{
    let sources = gravity_sources(s, s.len() as int);
    let forced = s.map_values(|b: RigidBody| with_forces(b, gravity, sources));
    let moved = forced.map_values(|b: RigidBody| integrated(b, dt, sleep_enabled));
    assert(forced[idx] == s[idx]);
    assert(moved[idx] == s[idx]);
    let pairs = candidate_pairs(moved, moved.len() as int);
    lemma_resolved_over_frame(moved, Seq::empty(), pairs, pairs.len() as int, idx);
}

/// Waking is immediate: a dynamic body is awake (with a reset sleep
/// timer) the moment `woken` is applied to it, which every force,
/// impulse and collision application does.
pub proof fn lemma_woken_is_awake(b: RigidBody)
    requires
        b.body_type == BodyType::Dynamic,
    ensures
        !woken(b).is_sleeping,
        woken(b).sleep_timer == 0,
        woken(b) == (RigidBody { is_sleeping: false, sleep_timer: 0, ..b }),
{
}

/// A body whose id is fresh (as every id the world assigns is) can be
/// pushed onto the body list and then removed by that id, leaving the
/// list exactly as it was: the removal scan matches the new body and
/// nothing else, and returns its data intact.
pub proof fn lemma_add_remove_round_trip(s: Seq<RigidBody>, b: RigidBody, next: u32)
    requires
        forall|k: int| 0 <= k < s.len() ==> (#[trigger] s[k]).id.0 < next,
        b.id == BodyId(next),
    ensures
        ({
            let s2 = s.push(b);
            &&& s2[s.len() as int].id == b.id
            &&& forall|k: int| 0 <= k < s.len() ==> (#[trigger] s2[k]).id != b.id
            &&& s2.remove(s.len() as int) == s
        }),
{
    let s2 = s.push(b);
    assert(s2.remove(s.len() as int) =~= s);
}

/// Two dynamic bodies of equal mass and restitution one, approaching
/// head-on along the collision normal with no spin and lever arms
/// aligned with the normal, exchange their velocities exactly, and
/// their total kinetic energy is unchanged.
/// The two divisibility premises exclude the inputs on which fixed-point
/// truncation would shave the exchange by a rounding step.
#[verifier::rlimit(100)]
pub proof fn lemma_equal_mass_elastic_exchange(s: Seq<RigidBody>, i: int, j: int, cp: Vec2, m: i64)
    requires
        0 <= i < s.len(),
        0 <= j < s.len(),
        i != j,
        s[i].body_type == BodyType::Dynamic,
        s[j].body_type == BodyType::Dynamic,
        s[i].mass == Mass::Value(m),
        s[j].mass == Mass::Value(m),
        MIN_MASS <= m <= 1_000_000_000,
        (FP_ONE * FP_ONE) % (m as int) == 0,
        s[i].material.restitution == FP_ONE,
        s[j].material.restitution == FP_ONE,
        s[i].angular_velocity == 0,
        s[j].angular_velocity == 0,
        cp.x == s[i].position.x,
        cp.x == s[j].position.x,
        s[i].velocity.x == 0,
        s[j].velocity.x == 0,
        -1_000_000_000_000_000 <= s[i].velocity.y <= 1_000_000_000_000_000,
        -1_000_000_000_000_000 <= s[j].velocity.y <= 1_000_000_000_000_000,
        s[j].velocity.y <= s[i].velocity.y,
        ((s[j].velocity.y - s[i].velocity.y) * FP_ONE) % (FP_ONE * FP_ONE / (m as int)) == 0,
    ensures
        ({
            let s2 = impulse_applied(s, i, j, Vec2 { x: 0, y: FP_ONE }, cp);
            &&& s2.len() == s.len()
            &&& s2[i].velocity == s[j].velocity
            &&& s2[j].velocity == s[i].velocity
            &&& s2[i].spec_kinetic_energy() + s2[j].spec_kinetic_energy() == s[i
            ].spec_kinetic_energy() + s[j].spec_kinetic_energy()
        }),
{
    let one = FP_ONE as int;
    let up = Vec2 { x: 0, y: FP_ONE };
    let s0 = s.update(i, roused(s[i])).update(j, roused(s[j]));
    let a = s0[i];
    let b = s0[j];
    assert(a == roused(s[i]));
    assert(b == roused(s[j]));
    lemma_tdiv_zero(one);

    // lever arms are aligned with the normal, and there is no spin, so
    // every angular contribution vanishes
    let r1 = cp.spec_sub(a.position);
    let r2 = cp.spec_sub(b.position);
    assert(r1.x == 0 && r2.x == 0);
    assert(a.velocity.spec_add(r1.spec_perp().spec_scale(a.angular_velocity)) == a.velocity);
    assert(b.velocity.spec_add(r2.spec_perp().spec_scale(b.angular_velocity)) == b.velocity);

    let rel = b.velocity.spec_sub(a.velocity);
    let vy1 = s[i].velocity.y as int;
    let vy2 = s[j].velocity.y as int;
    assert(rel.x == 0 && rel.y == vy2 - vy1);
    let vn_int = vy2 - vy1;

    // the dot product with the unit up normal picks the y component exactly
    lemma_tdiv_mul_cancel(rel.y as int, one);
    let vn = rel.spec_dot(up);
    assert(vn == rel.y);
    assert(vn <= 0);

    // with the documented divisibility, the inverse mass is exact
    let q = (FP_ONE * FP_ONE) / (m as int);
    lemma_tdiv_ordered_by_denominator(one * one, MIN_MASS as int, m as int);
    lemma_tdiv_ordered_by_denominator(one * one, m as int, 1_000_000_000);
    assert(1_000 <= q <= 1_000_000_000);
    assert(spec_fp_div(FP_ONE, m) == q as i64);
    let im = q as i64;

    // cross products with the up normal vanish
    assert(r1.spec_cross(up) == 0 && r2.spec_cross(up) == 0);
    assert(0 as i64 * crate::physics_world::inv_inertia_of(a) == 0) by (nonlinear_arith);
    assert(0 as i64 * crate::physics_world::inv_inertia_of(b) == 0) by (nonlinear_arith);
    assert(spec_fp_mul(0, 0) == 0);
    assert(spec_fp_mul(spec_fp_mul(0, 0), crate::physics_world::inv_inertia_of(a)) == 0);
    assert(spec_fp_mul(spec_fp_mul(0, 0), crate::physics_world::inv_inertia_of(b)) == 0);
    assert(spec_fp_add(im, im) == (2 * q) as i64);
    let denom = spec_fp_add(
        spec_fp_add(
            spec_fp_add(im, im),
            spec_fp_mul(spec_fp_mul(0, 0), crate::physics_world::inv_inertia_of(a)),
        ),
        spec_fp_mul(spec_fp_mul(0, 0), crate::physics_world::inv_inertia_of(b)),
    );
    assert(denom == 2 * q);

    // averaged restitution of two perfect restitutions is perfect
    lemma_tdiv_mul_cancel(1_000_000, 2);
    let e = spec_int_div(spec_fp_add(s[i].material.restitution, s[j].material.restitution), 2);
    assert(e == FP_ONE);

    // -(1 + e) * vn evaluates to -2 * vn exactly
    assert((-2_000_000) * vn == (-2 * vn) * one) by (nonlinear_arith)
        requires
            one == 1_000_000,
    ;
    lemma_tdiv_mul_cancel(-2 * vn, one);
    let num = spec_fp_mul(spec_fp_neg(spec_fp_add(FP_ONE, e)), vn);
    assert(num == -2 * vn as int);

    // the impulse scalar is exactly -vn * FP_ONE / q
    assert(num * one == 2 * ((-vn) * one)) by (nonlinear_arith)
        requires
            num == -2 * vn as int,
    ;
    lemma_tdiv_scale_cancel(2, (-vn) * one, q);
    assert((vn * one) % q == 0) by {
        assert(vn * one == vn_int * FP_ONE);
    };
    assert(((-vn) * one) % q == 0) by {
        vstd::arithmetic::div_mod::lemma_fundamental_div_mod(vn * one, q);
        let c = (vn * one) / q;
        assert(vn * one == q * c);
        assert((-vn) * one == (-c) * q) by (nonlinear_arith)
            requires
                vn * one == q * c,
        ;
        vstd::arithmetic::div_mod::lemma_mod_multiples_basic(-c, q);
    };
    lemma_tdiv_exact((-vn) * one, q);
    let js_int = tdiv((-vn) * one, q);
    assert(js_int * q == (-vn) * one);
    assert(-2_000_000_000_000_000_000 <= js_int <= 2_000_000_000_000_000_000) by (nonlinear_arith)
        requires
            js_int * q == (-vn) * one,
            1_000 <= q,
            one == 1_000_000,
            -2_000_000_000_000_000 <= vn <= 2_000_000_000_000_000,
    ;
    let js = spec_fp_div(num, denom);
    assert(js == js_int);

    // the impulse vector is (0, js), and dividing by the mass again gives
    // exactly the relative speed: the velocities swap
    lemma_tdiv_mul_cancel(js_int, one);
    assert(one * js_int == js_int * one) by (nonlinear_arith);
    let impulse = up.spec_scale(js as i64);
    assert(impulse.x == 0 && impulse.y == js_int);
    assert(js_int * q == (-vn) * one);
    let dv = spec_fp_mul(impulse.y, im);
    lemma_tdiv_mul_cancel(-vn, one);
    assert(dv == -vn);
    assert(0 as i64 * im == 0) by (nonlinear_arith);
    assert(spec_fp_mul(0, im) == 0);
    assert(impulse.spec_scale(im) == Vec2 { x: 0, y: (-vn) as i64 });

    let a1v = a.velocity.spec_sub(impulse.spec_scale(im));
    assert(a1v.y == vy1 + vn);
    assert(a1v == s[j].velocity);
    let b1v = b.velocity.spec_add(impulse.spec_scale(im));
    assert(b1v.y == vy2 - vn);
    assert(b1v == s[i].velocity);

    // the tangential relative speed is zero, so no friction applies
    let tangent = up.spec_perp();
    assert(tangent == Vec2 { x: spec_fp_neg(FP_ONE), y: 0 });
    assert(rel.spec_dot(tangent) == 0);

    let s2 = impulse_applied(s, i, j, up, cp);
    assert(s2[i].velocity == s[j].velocity);
    assert(s2[j].velocity == s[i].velocity);
    assert(s2[i].mass == Mass::Value(m) && s2[j].mass == Mass::Value(m));
}

/// A dynamic body colliding head-on with a static (infinite-mass) body
/// never moves the static body at all, and the dynamic body's
/// post-collision speed along the normal is bounded by
/// `(1 + restitution)` times its incoming speed along the normal.
#[verifier::rlimit(100)]
pub proof fn lemma_static_collision_velocity_bound(
    s: Seq<RigidBody>,
    i: int,
    j: int,
    cp: Vec2,
    m: i64,
)
    requires
        0 <= i < s.len(),
        0 <= j < s.len(),
        i != j,
        s[i].body_type == BodyType::Dynamic,
        s[j].body_type == BodyType::Static,
        s[i].mass == Mass::Value(m),
        s[j].mass == Mass::Infinite,
        s[j].moment_of_inertia == Mass::Infinite,
        MIN_MASS <= m <= 1_000_000_000,
        0 <= s[i].material.restitution <= FP_ONE,
        0 <= s[j].material.restitution <= FP_ONE,
        s[i].angular_velocity == 0,
        s[j].angular_velocity == 0,
        cp.x == s[i].position.x,
        cp.x == s[j].position.x,
        s[i].velocity.x == 0,
        s[j].velocity == (Vec2 { x: 0, y: 0 }),
        0 <= s[i].velocity.y <= 1_000_000_000_000_000,
    ensures
        ({
            let s2 = impulse_applied(s, i, j, Vec2 { x: 0, y: FP_ONE }, cp);
            let e = spec_int_div(
                spec_fp_add(s[i].material.restitution, s[j].material.restitution),
                2,
            );
            let bound = spec_fp_mul(spec_fp_add(FP_ONE, e), s[i].velocity.y);
            &&& s2.len() == s.len()
            &&& s2[j] == s[j]
            &&& s2[i].velocity.x == 0
            &&& -bound <= s2[i].velocity.y <= bound
        }),
{
    let one = FP_ONE as int;
    let up = Vec2 { x: 0, y: FP_ONE };
    let s0 = s.update(i, roused(s[i])).update(j, roused(s[j]));
    let a = s0[i];
    let b = s0[j];
    assert(a == roused(s[i]));
    assert(b == s[j]);
    lemma_tdiv_zero(one);
    let vy = s[i].velocity.y as int;

    // no spin and aligned lever arms: the contact velocities are the
    // linear velocities, and the relative velocity is straight down
    let r1 = cp.spec_sub(a.position);
    let r2 = cp.spec_sub(b.position);
    assert(r1.x == 0 && r2.x == 0);
    assert(a.velocity.spec_add(r1.spec_perp().spec_scale(a.angular_velocity)) == a.velocity);
    assert(b.velocity.spec_add(r2.spec_perp().spec_scale(b.angular_velocity)) == b.velocity);
    let rel = b.velocity.spec_sub(a.velocity);
    assert(rel.x == 0 && rel.y == -vy);
    lemma_tdiv_mul_cancel(rel.y as int, one);
    let vn = rel.spec_dot(up);
    assert(vn == -vy);
    assert(vn <= 0);

    // the static body contributes zero inverse mass, so the denominator
    // is the dynamic body's inverse mass alone
    let q = tdiv(one * one, m as int);
    lemma_tdiv_nonneg(one * one, m as int);
    lemma_tdiv_ordered_by_denominator(one * one, MIN_MASS as int, m as int);
    lemma_tdiv_ordered_by_denominator(one * one, m as int, 1_000_000_000);
    assert(1_000 <= q <= 1_000_000_000);
    assert(spec_fp_div(FP_ONE, m) == q as i64);
    let im = q as i64;
    assert(inv_mass_of(b) == 0);
    assert(r1.spec_cross(up) == 0 && r2.spec_cross(up) == 0);
    assert(0 as i64 * inv_inertia_of(a) == 0) by (nonlinear_arith);
    assert(0 as i64 * inv_inertia_of(b) == 0) by (nonlinear_arith);
    assert(spec_fp_mul(0, 0) == 0);
    assert(spec_fp_mul(spec_fp_mul(0, 0), inv_inertia_of(a)) == 0);
    assert(spec_fp_mul(spec_fp_mul(0, 0), inv_inertia_of(b)) == 0);
    let denom = spec_fp_add(
        spec_fp_add(
            spec_fp_add(im, 0),
            spec_fp_mul(spec_fp_mul(0, 0), inv_inertia_of(a)),
        ),
        spec_fp_mul(spec_fp_mul(0, 0), inv_inertia_of(b)),
    );
    assert(denom == q);

    // the averaged restitution stays within [0, 1]
    let e = spec_int_div(spec_fp_add(s[i].material.restitution, s[j].material.restitution), 2);
    let esum = s[i].material.restitution + s[j].material.restitution;
    lemma_tdiv_nonneg(esum, 2);
    lemma_tdiv_ordered(esum, 2 * one, 2);
    lemma_tdiv_mul_cancel(one, 2);
    assert(0 <= e <= FP_ONE);

    // num == (1 + e) * vy rescaled, which is at least vy and at most 2 * vy
    let ei = e as int;
    let p = (one + ei) * vy;
    assert((-(one + ei)) * (-vy) == p) by (nonlinear_arith)
        requires
            p == (one + ei) * vy,
    ;
    assert(one * vy <= p <= 2 * one * vy) by (nonlinear_arith)
        requires
            0 <= vy,
            one == 1_000_000,
            0 <= ei <= 1_000_000,
            p == (one + ei) * vy,
    ;
    lemma_tdiv_nonneg(p, one);
    lemma_tdiv_ordered(vy * one, p, one);
    lemma_tdiv_ordered(p, 2 * vy * one, one);
    lemma_tdiv_mul_cancel(vy, one);
    lemma_tdiv_mul_cancel(2 * vy, one);
    assert(vy * one == one * vy && (2 * vy) * one == 2 * one * vy) by (nonlinear_arith);
    let num_int = tdiv(p, one);
    assert(vy <= num_int <= 2 * vy);
    let num = spec_fp_mul(spec_fp_neg(spec_fp_add(FP_ONE, e as i64)), vn as i64);
    assert(num == num_int);

    // each further truncating step only shrinks the impulse: the final
    // velocity change lies in [0, num]
    lemma_tdiv_nonneg(num_int * one, q);
    let js_int = tdiv(num_int * one, q);
    lemma_tdiv_ordered_by_denominator(num_int * one, 1_000, q);
    assert(num_int * one <= 2_000_000_000_000_000_000_000) by (nonlinear_arith)
        requires
            num_int <= 2_000_000_000_000_000,
            one == 1_000_000,
    ;
    lemma_tdiv_ordered(num_int * one, 2_000_000_000_000_000_000_000, 1_000);
    assert(tdiv(2_000_000_000_000_000_000_000, 1_000) == 2_000_000_000_000_000_000) by {
        lemma_tdiv_mul_cancel(2_000_000_000_000_000_000, 1_000);
    };
    assert(0 <= js_int <= 2_000_000_000_000_000_000);
    let js = spec_fp_div(num, denom);
    assert(js == js_int);

    lemma_tdiv_mul_cancel(js_int, one);
    assert(one * js_int == js_int * one) by (nonlinear_arith);
    let impulse = up.spec_scale(js as i64);
    assert(impulse.x == 0 && impulse.y == js_int);

    lemma_tdiv_mul_le(num_int * one, q);
    assert(js_int * q <= num_int * one);
    assert(js_int * q >= 0) by (nonlinear_arith)
        requires
            js_int >= 0,
            q > 0,
    ;
    lemma_tdiv_nonneg(js_int * q, one);
    lemma_tdiv_ordered(js_int * q, num_int * one, one);
    lemma_tdiv_mul_cancel(num_int, one);
    let dv_int = tdiv(js_int * q, one);
    assert(0 <= dv_int <= num_int);
    let dv = spec_fp_mul(impulse.y, im);
    assert(dv == dv_int);
    assert(0 as i64 * im == 0) by (nonlinear_arith);
    assert(spec_fp_mul(0, im) == 0);
    assert(impulse.spec_scale(im) == Vec2 { x: 0, y: dv_int as i64 });

    let a1v = a.velocity.spec_sub(impulse.spec_scale(im));
    assert(a1v.x == 0 && a1v.y == vy - dv_int);
    assert(-num_int <= vy - dv_int <= num_int);

    // no tangential relative speed: no friction impulse
    let tangent = up.spec_perp();
    assert(tangent == Vec2 { x: spec_fp_neg(FP_ONE), y: 0 });
    assert(rel.spec_dot(tangent) == 0);

    let s2 = impulse_applied(s, i, j, up, cp);
    assert(s2[j] == s[j]);
    assert(s2[i].velocity.x == 0);
    assert(-num_int <= s2[i].velocity.y <= num_int);
}

} // verus!
