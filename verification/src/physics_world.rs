//! The physics world: owns the bodies, the global gravity vector and the
//! per-step collision-event log, and orchestrates the simulation step.

use vstd::prelude::*;
use crate::collision::{
    calculate_collision_normal, calculate_penetration, check_collision, check_collision_with_point,
    collides, collision_normal_of, contact_point, penetration_of, Collider,
};
use crate::fp::{
    fp_add, fp_div, fp_max, fp_mul, fp_neg, fp_sub, int_div, spec_fp_add, spec_fp_div,
    spec_fp_max, spec_fp_mul, spec_fp_neg, spec_fp_sub, spec_int_div, FP_ONE,
};
use crate::gravity::GravityField;
use crate::rigid_body::{body_wf, woken, BodyId, BodyType, Mass, RigidBody};
use crate::vec2::Vec2;

verus! {

/// One colliding pair in one sub-step: the two ids, the contact point and
/// the collision normal.  The log is transient; the game drains it once
/// per frame.
#[derive(Clone, Copy, Debug, PartialEq, Eq, Structural)]
pub struct CollisionEvent {
    pub body1_id: BodyId,
    pub body2_id: BodyId,
    pub contact_point: Vec2,
    pub normal: Vec2,
}

/// Diagnostic counters for debug overlays.
#[derive(Clone, Copy, Debug, PartialEq, Eq, Structural)]
pub struct PhysicsStats {
    pub total_bodies: usize,
    pub active_bodies: usize,
    pub sleeping_bodies: usize,
    pub total_kinetic_energy: i64,
}

/// Resolution for a pair is abandoned beyond this penetration (50 units):
/// tunneling is deferred to later steps rather than answered with a huge
/// corrective impulse.
pub const EXTREME_PENETRATION_THRESHOLD: i64 = 50_000_000;

/// Gravity fields act only on bodies farther away than this (0.1 units).
pub const GRAVITY_FIELD_MIN_DISTANCE: i64 = 100_000;

/// Fraction of the penetration corrected positionally per sub-step (0.8).
pub const CORRECTION_PERCENT: i64 = 800_000;

/// Penetration below this slop (0.01 units) is tolerated uncorrected.
pub const CORRECTION_SLOP: i64 = 10_000;

/// Tangential relative speed under this deadzone (1.5 units/s) produces no
/// friction impulse.
pub const FRICTION_DEADZONE: i64 = 1_500_000;

/// Coulomb-like cap scale on the friction impulse (0.3 of `friction * |j|`).
pub const FRICTION_CAP_SCALE: i64 = 300_000;

/// The main physics world that manages all physics bodies.
pub struct PhysicsWorld {
    bodies: Vec<RigidBody>,
    next_body_id: u32,
    global_gravity: Vec2,
    collision_events: Vec<CollisionEvent>,
    // Performance settings
    sleep_enabled: bool,
    substeps: u32,
}

/// Number of sleeping bodies in a sequence.
pub open spec fn count_sleeping(s: Seq<RigidBody>) -> int
    decreases s.len(),
{
    if s.len() == 0 {
        0
    } else {
        count_sleeping(s.drop_last()) + if s.last().is_sleeping {
            1int
        } else {
            0int
        }
    }
}

/// Total kinetic energy of a sequence, accumulated with saturating adds.
pub open spec fn total_energy(s: Seq<RigidBody>) -> i64
    decreases s.len(),
{
    if s.len() == 0 {
        0
    } else {
        spec_fp_add(total_energy(s.drop_last()), s.last().spec_kinetic_energy())
    }
}

impl PhysicsWorld {
    /// The bodies, in storage order (insertion order modulo removals).
    pub closed spec fn bodies_seq(&self) -> Seq<RigidBody> {
        self.bodies@
    }

    /// The id the next inserted body will receive.
    pub closed spec fn next_id(&self) -> u32 {
        self.next_body_id
    }

    /// The uniform gravity applied to every dynamic body.
    pub closed spec fn gravity(&self) -> Vec2 {
        self.global_gravity
    }

    /// The collision events recorded by the most recent sub-step.
    pub closed spec fn events_seq(&self) -> Seq<CollisionEvent> {
        self.collision_events@
    }

    /// Whether idle dynamic bodies are put to sleep.
    pub closed spec fn sleep_enabled_flag(&self) -> bool {
        self.sleep_enabled
    }

    /// Number of sub-steps a step is divided into.
    pub closed spec fn substeps_count(&self) -> u32 {
        self.substeps
    }

    /// Well-formedness the world maintains: every id already handed out is
    /// below the next free id, ids are unique, and masses are clamped.
    pub open spec fn wf(&self) -> bool {
        &&& forall|i: int|
            0 <= i < self.bodies_seq().len() ==> (#[trigger] self.bodies_seq()[i]).id.0
                < self.next_id()
        &&& forall|i: int, j: int|
            0 <= i < j < self.bodies_seq().len() ==> (#[trigger] self.bodies_seq()[i]).id != (
            #[trigger] self.bodies_seq()[j]).id
        &&& forall|i: int| 0 <= i < self.bodies_seq().len() ==> body_wf(
            #[trigger] self.bodies_seq()[i],
        )
    }

    /// Create a new physics world: empty, no gravity, sleeping enabled,
    /// one sub-step.
    pub fn new() -> (r: PhysicsWorld)
        ensures
            r.bodies_seq() == Seq::<RigidBody>::empty(),
            r.next_id() == 0,
            r.gravity() == Vec2::spec_zero(),
            r.events_seq() == Seq::<CollisionEvent>::empty(),
            r.sleep_enabled_flag(),
            r.substeps_count() == 1,
            r.wf(),
    {
        let r = PhysicsWorld {
            bodies: Vec::new(),
            next_body_id: 0,
            global_gravity: Vec2::zero(),
            collision_events: Vec::new(),
            sleep_enabled: true,
            substeps: 1,
        };
        proof {
            assert(r.bodies@ =~= Seq::<RigidBody>::empty());
            assert(r.collision_events@ =~= Seq::<CollisionEvent>::empty());
        }
        r
    }

    pub fn get_collision_events(&self) -> (r: &[CollisionEvent])
        ensures
            r@ == self.events_seq(),
    {
        self.collision_events.as_slice()
    }

    pub fn clear_collision_events(&mut self)
        ensures
            final(self).events_seq() == Seq::<CollisionEvent>::empty(),
            final(self).bodies_seq() == old(self).bodies_seq(),
            final(self).next_id() == old(self).next_id(),
            final(self).gravity() == old(self).gravity(),
            final(self).sleep_enabled_flag() == old(self).sleep_enabled_flag(),
            final(self).substeps_count() == old(self).substeps_count(),
    {
        self.collision_events.clear();
        proof {
            assert(self.collision_events@ =~= Seq::<CollisionEvent>::empty());
        }
    }

    /// Configure gravity for the world; every dynamic body is woken so it
    /// reacts to the change.
    pub fn set_global_gravity(&mut self, gravity: Vec2)
        ensures
            final(self).gravity() == gravity,
            final(self).bodies_seq() == old(self).bodies_seq().map_values(|b: RigidBody| woken(b)),
            final(self).next_id() == old(self).next_id(),
            final(self).events_seq() == old(self).events_seq(),
            final(self).sleep_enabled_flag() == old(self).sleep_enabled_flag(),
            final(self).substeps_count() == old(self).substeps_count(),
            old(self).wf() ==> final(self).wf(),
    {
        self.global_gravity = gravity;
        // Wake up all dynamic bodies when gravity changes
        let n = self.bodies.len();
        let mut i: usize = 0;
        while i < n
            invariant
                n == self.bodies@.len(),
                i <= n,
                forall|k: int| 0 <= k < i ==> self.bodies@[k] == woken(old(self).bodies@[k]),
                forall|k: int| i <= k < n ==> self.bodies@[k] == old(self).bodies@[k],
                self.next_body_id == old(self).next_body_id,
                self.global_gravity == gravity,
                self.collision_events@ == old(self).collision_events@,
                self.sleep_enabled == old(self).sleep_enabled,
                self.substeps == old(self).substeps,
            decreases n - i,
        {
            let body = &mut self.bodies[i];
            if body.body_type == BodyType::Dynamic {
                body.wake_up();
            }
            i = i + 1;
        }
        proof {
            assert(self.bodies@ =~= old(self).bodies@.map_values(|b: RigidBody| woken(b)));
        }
    }

    /// Add a body to the physics world; the world assigns and returns its id.
    pub fn add_body(&mut self, body: RigidBody) -> (r: BodyId)
        requires
            old(self).next_id() < u32::MAX,
        ensures
            r == BodyId(old(self).next_id()),
            final(self).bodies_seq() == old(self).bodies_seq().push(
                RigidBody { id: r, ..body },
            ),
            final(self).next_id() == old(self).next_id() + 1,
            final(self).gravity() == old(self).gravity(),
            final(self).events_seq() == old(self).events_seq(),
            final(self).sleep_enabled_flag() == old(self).sleep_enabled_flag(),
            final(self).substeps_count() == old(self).substeps_count(),
            old(self).wf() && body_wf(body) ==> final(self).wf(),
    {
        let id = BodyId(self.next_body_id);
        self.next_body_id = self.next_body_id + 1;
        let mut b = body;
        b.id = id;
        self.bodies.push(b);
        id
    }

    /// Remove a body by id: the first body carrying `id` is removed and
    /// returned with its data intact; an unknown id changes nothing.
    pub fn remove_body(&mut self, id: BodyId) -> (r: Option<RigidBody>)
        ensures
            final(self).next_id() == old(self).next_id(),
            final(self).gravity() == old(self).gravity(),
            final(self).events_seq() == old(self).events_seq(),
            final(self).sleep_enabled_flag() == old(self).sleep_enabled_flag(),
            final(self).substeps_count() == old(self).substeps_count(),
            match r {
                None => {
                    &&& final(self).bodies_seq() == old(self).bodies_seq()
                    &&& forall|k: int|
                        0 <= k < old(self).bodies_seq().len() ==> (#[trigger] old(
                            self,
                        ).bodies_seq()[k]).id != id
                },
                Some(b) => exists|i: int|
                    {
                        &&& 0 <= i < old(self).bodies_seq().len()
                        &&& (#[trigger] old(self).bodies_seq()[i]).id == id
                        &&& forall|k: int| 0 <= k < i ==> old(self).bodies_seq()[k].id != id
                        &&& b == old(self).bodies_seq()[i]
                        &&& final(self).bodies_seq() == old(self).bodies_seq().remove(i)
                    },
            },
            old(self).wf() ==> final(self).wf(),
    {
        let n = self.bodies.len();
        let mut i: usize = 0;
        while i < n
            invariant
                n == self.bodies@.len(),
                i <= n,
                *self == *old(self),
                forall|k: int| 0 <= k < i ==> (#[trigger] self.bodies@[k]).id != id,
            decreases n - i,
        {
            if self.bodies[i].id == id {
                let b = self.bodies.remove(i);
                return Some(b);
            }
            i = i + 1;
        }
        None
    }

    /// Sweep out every body flagged for deletion, preserving the order of
    /// the rest; ownership of the removed bodies passes to the caller.
    pub fn remove_marked_bodies(&mut self) -> (r: Vec<RigidBody>)
        ensures
            final(self).bodies_seq() == old(self).bodies_seq().filter(
                |b: RigidBody| !b.marked_for_deletion,
            ),
            r@ == old(self).bodies_seq().filter(|b: RigidBody| b.marked_for_deletion),
            final(self).next_id() == old(self).next_id(),
            final(self).gravity() == old(self).gravity(),
            final(self).events_seq() == old(self).events_seq(),
            final(self).sleep_enabled_flag() == old(self).sleep_enabled_flag(),
            final(self).substeps_count() == old(self).substeps_count(),
    {
        let n = self.bodies.len();
        let mut remaining: Vec<RigidBody> = Vec::new();
        let mut removed: Vec<RigidBody> = Vec::new();
        let mut i: usize = 0;
        while i < n
            invariant
                n == self.bodies@.len(),
                i <= n,
                remaining@ == self.bodies@.subrange(0, i as int).filter(
                    |b: RigidBody| !b.marked_for_deletion,
                ),
                removed@ == self.bodies@.subrange(0, i as int).filter(
                    |b: RigidBody| b.marked_for_deletion,
                ),
            decreases n - i,
        {
            let b = self.bodies[i];
            proof {
                assert(self.bodies@.subrange(0, i + 1 as int).drop_last() =~= self.bodies@.subrange(
                    0,
                    i as int,
                ));
                reveal_with_fuel(Seq::filter, 2);
            }
            if b.marked_for_deletion {
                removed.push(b);
            } else {
                remaining.push(b);
            }
            i = i + 1;
        }
        proof {
            assert(self.bodies@.subrange(0, n as int) =~= self.bodies@);
        }
        self.bodies = remaining;
        removed
    }

    /// Get a reference to the first body carrying `id`, if any.
    pub fn get_body(&self, id: BodyId) -> (r: Option<&RigidBody>)
        ensures
            match r {
                None => forall|k: int|
                    0 <= k < self.bodies_seq().len() ==> (#[trigger] self.bodies_seq()[k]).id
                        != id,
                Some(b) => exists|i: int|
                    {
                        &&& 0 <= i < self.bodies_seq().len()
                        &&& (#[trigger] self.bodies_seq()[i]).id == id
                        &&& forall|k: int| 0 <= k < i ==> self.bodies_seq()[k].id != id
                        &&& *b == self.bodies_seq()[i]
                    },
            },
    {
        let n = self.bodies.len();
        let mut i: usize = 0;
        while i < n
            invariant
                n == self.bodies@.len(),
                i <= n,
                forall|k: int| 0 <= k < i ==> (#[trigger] self.bodies@[k]).id != id,
            decreases n - i,
        {
            if self.bodies[i].id == id {
                return Some(&self.bodies[i]);
            }
            i = i + 1;
        }
        None
    }

    /// Get a mutable reference to the first body carrying `id`, if any.
    pub fn get_body_mut(&mut self, id: BodyId) -> (r: Option<&mut RigidBody>)
        ensures
            final(self).next_id() == old(self).next_id(),
            final(self).gravity() == old(self).gravity(),
            final(self).events_seq() == old(self).events_seq(),
            final(self).sleep_enabled_flag() == old(self).sleep_enabled_flag(),
            final(self).substeps_count() == old(self).substeps_count(),
            match r {
                None => {
                    &&& final(self).bodies_seq() == old(self).bodies_seq()
                    &&& forall|k: int|
                        0 <= k < old(self).bodies_seq().len() ==> (#[trigger] old(
                            self,
                        ).bodies_seq()[k]).id != id
                },
                Some(b) => exists|i: int|
                    {
                        &&& 0 <= i < old(self).bodies_seq().len()
                        &&& (#[trigger] old(self).bodies_seq()[i]).id == id
                        &&& forall|k: int| 0 <= k < i ==> old(self).bodies_seq()[k].id != id
                        &&& *b == old(self).bodies_seq()[i]
                        &&& final(self).bodies_seq() == old(self).bodies_seq().update(
                            i,
                            *final(b),
                        )
                    },
            },
    {
        let n = self.bodies.len();
        let mut i: usize = 0;
        while i < n
            invariant
                n == self.bodies@.len(),
                i <= n,
                self.bodies@ == old(self).bodies@,
                self.next_body_id == old(self).next_body_id,
                self.global_gravity == old(self).global_gravity,
                self.collision_events@ == old(self).collision_events@,
                self.sleep_enabled == old(self).sleep_enabled,
                self.substeps == old(self).substeps,
                forall|k: int| 0 <= k < i ==> (#[trigger] self.bodies@[k]).id != id,
            decreases n - i,
        {
            if self.bodies[i].id == id {
                return Some(&mut self.bodies[i]);
            }
            i = i + 1;
        }
        None
    }

    /// All bodies, in storage order.
    pub fn bodies(&self) -> (r: &[RigidBody])
        ensures
            r@ == self.bodies_seq(),
    {
        self.bodies.as_slice()
    }

    /// Set the number of physics sub-steps (higher = more accurate but
    /// slower); at least one.
    pub fn set_substeps(&mut self, substeps: u32)
        ensures
            final(self).substeps_count() == if substeps >= 1 {
                substeps
            } else {
                1
            },
            final(self).bodies_seq() == old(self).bodies_seq(),
            final(self).next_id() == old(self).next_id(),
            final(self).gravity() == old(self).gravity(),
            final(self).events_seq() == old(self).events_seq(),
            final(self).sleep_enabled_flag() == old(self).sleep_enabled_flag(),
    {
        self.substeps = if substeps >= 1 {
            substeps
        } else {
            1
        };
    }

    /// Enable or disable sleeping; disabling wakes every sleeping body.
    pub fn set_sleep_enabled(&mut self, enabled: bool)
        ensures
            final(self).sleep_enabled_flag() == enabled,
            enabled ==> final(self).bodies_seq() == old(self).bodies_seq(),
            !enabled ==> final(self).bodies_seq() == old(self).bodies_seq().map_values(
                |b: RigidBody| woken(b),
            ),
            final(self).next_id() == old(self).next_id(),
            final(self).gravity() == old(self).gravity(),
            final(self).events_seq() == old(self).events_seq(),
            final(self).substeps_count() == old(self).substeps_count(),
            old(self).wf() ==> final(self).wf(),
    {
        self.sleep_enabled = enabled;
        if !enabled {
            // Wake up all sleeping bodies
            let n = self.bodies.len();
            let mut i: usize = 0;
            while i < n
                invariant
                    n == self.bodies@.len(),
                    i <= n,
                    forall|k: int| 0 <= k < i ==> self.bodies@[k] == woken(old(self).bodies@[k]),
                    forall|k: int| i <= k < n ==> self.bodies@[k] == old(self).bodies@[k],
                    self.next_body_id == old(self).next_body_id,
                    self.global_gravity == old(self).global_gravity,
                    self.collision_events@ == old(self).collision_events@,
                    self.sleep_enabled == false,
                    self.substeps == old(self).substeps,
                decreases n - i,
            {
                let body = &mut self.bodies[i];
                body.wake_up();
                i = i + 1;
            }
            proof {
                assert(self.bodies@ =~= old(self).bodies@.map_values(|b: RigidBody| woken(b)));
            }
        }
    }

    /// Get physics world statistics.
    pub fn stats(&self) -> (r: PhysicsStats)
        ensures
            r.total_bodies == self.bodies_seq().len(),
            r.sleeping_bodies == count_sleeping(self.bodies_seq()),
            r.active_bodies == self.bodies_seq().len() - count_sleeping(self.bodies_seq()),
            r.total_kinetic_energy == total_energy(self.bodies_seq()),
    {
        let total_bodies = self.bodies.len();
        let mut sleeping_bodies: usize = 0;
        let mut total_kinetic_energy: i64 = 0;
        let mut i: usize = 0;
        while i < total_bodies
            invariant
                total_bodies == self.bodies@.len(),
                i <= total_bodies,
                sleeping_bodies == count_sleeping(self.bodies@.subrange(0, i as int)),
                sleeping_bodies <= i,
                total_kinetic_energy == total_energy(self.bodies@.subrange(0, i as int)),
            decreases total_bodies - i,
        {
            proof {
                assert(self.bodies@.subrange(0, i + 1 as int).drop_last() =~= self.bodies@.subrange(
                    0,
                    i as int,
                ));
                assert(self.bodies@.subrange(0, i + 1 as int).last() == self.bodies@[i as int]);
            }
            if self.bodies[i].is_sleeping {
                sleeping_bodies = sleeping_bodies + 1;
            }
            total_kinetic_energy = fp_add(total_kinetic_energy, self.bodies[i].kinetic_energy());
            i = i + 1;
        }
        proof {
            assert(self.bodies@.subrange(0, total_bodies as int) =~= self.bodies@);
        }
        PhysicsStats {
            total_bodies,
            active_bodies: total_bodies - sleeping_bodies,
            sleeping_bodies,
            total_kinetic_energy,
        }
    }
}

impl Default for PhysicsWorld {
    /// Same as [`PhysicsWorld::new`].
    fn default() -> (r: PhysicsWorld)
        ensures
            r.bodies_seq() == Seq::<RigidBody>::empty(),
            r.next_id() == 0,
            r.gravity() == Vec2::spec_zero(),
            r.events_seq() == Seq::<CollisionEvent>::empty(),
            r.sleep_enabled_flag(),
            r.substeps_count() == 1,
            r.wf(),
    {
        PhysicsWorld::new()
    }
}

/// Finite mass value; an infinite mass contributes zero to force
/// formulas (it can never be accelerated anyway).
pub open spec fn mass_or_zero(m: Mass) -> i64 {
    match m {
        Mass::Value(v) => v,
        Mass::Infinite => 0,
    }
}

/// The gravity sources among the first `i` bodies: `(id, position, field)`
/// for every body carrying a field, in storage order.
pub open spec fn gravity_sources(s: Seq<RigidBody>, i: int) -> Seq<(BodyId, Vec2, GravityField)>
    decreases i,
{
    if i <= 0 {
        Seq::empty()
    } else {
        let rest = gravity_sources(s, i - 1);
        match s[i - 1].gravity_field {
            Some(g) => rest.push((s[i - 1].id, s[i - 1].position, g)),
            None => rest,
        }
    }
}

/// One gravity-field pull on `b` added to `acc`: a source other than `b`
/// itself, at a distance inside `(GRAVITY_FIELD_MIN_DISTANCE, radius)`,
/// attracts along the unit direction toward it, scaled by the falloff law.
pub open spec fn field_pull(b: RigidBody, src: (BodyId, Vec2, GravityField), acc: Vec2) -> Vec2 {
    let (oid, opos, g) = src;
    if oid != b.id {
        let d = crate::vec2::spec_dist(b.position, opos);
        if d < g.radius && d > GRAVITY_FIELD_MIN_DISTANCE {
            let direction = crate::vec2::spec_unit_toward(b.position, opos);
            let mag = crate::gravity::force_at(g, d, mass_or_zero(b.mass));
            acc.spec_add(direction.spec_scale(mag))
        } else {
            acc
        }
    } else {
        acc
    }
}

/// The field pulls of the first `k` sources folded over `acc`, in order.
pub open spec fn field_pulls(
    b: RigidBody,
    sources: Seq<(BodyId, Vec2, GravityField)>,
    k: int,
    acc: Vec2,
) -> Vec2
    decreases k,
{
    if k <= 0 {
        acc
    } else {
        field_pull(b, sources[k - 1], field_pulls(b, sources, k - 1, acc))
    }
}

/// A body after the force-accumulation phase: an awake dynamic body
/// gathers global gravity, every applicable field pull, and linear drag
/// into its force accumulator; every other body is untouched.
pub open spec fn with_forces(
    b: RigidBody,
    gravity: Vec2,
    sources: Seq<(BodyId, Vec2, GravityField)>,
) -> RigidBody {
    if b.body_type == BodyType::Dynamic && !b.is_sleeping {
        let m = mass_or_zero(b.mass);
        let acc1 = b.force_accumulator.spec_add(gravity.spec_scale(m));
        let acc2 = field_pulls(b, sources, sources.len() as int, acc1);
        let acc3 = if b.material.drag > 0 {
            acc2.spec_add(b.velocity.spec_neg().spec_scale(b.material.drag).spec_scale(m))
        } else {
            acc2
        };
        RigidBody { force_accumulator: acc3, ..b }
    } else {
        b
    }
}

/// A body after integration over `dt`.  An awake dynamic body turns its
/// accumulated force into acceleration, velocity and position
/// (semi-implicit Euler), does the analogous angular integration with
/// exponential angular drag, syncs its collider, clears its accumulators,
/// and updates its sleep bookkeeping (entering sleep zeroes the
/// velocity).  A kinematic body only advances its position from its
/// velocity.  Everything else is untouched.
pub open spec fn integrated(b: RigidBody, dt: i64, sleep_enabled: bool) -> RigidBody {
    if b.body_type == BodyType::Dynamic && !b.is_sleeping {
        let acceleration = match b.mass {
            Mass::Value(m) => if m > 0 {
                b.force_accumulator.spec_div_scale(m)
            } else {
                Vec2 { x: 0, y: 0 }
            },
            Mass::Infinite => Vec2 { x: 0, y: 0 },
        };
        let velocity = b.velocity.spec_add(acceleration.spec_scale(dt));
        let position = b.position.spec_add(velocity.spec_scale(dt));
        let angular_acceleration = match b.moment_of_inertia {
            Mass::Value(i) => if i > 0 {
                spec_fp_div(b.torque_accumulator, i)
            } else {
                0
            },
            Mass::Infinite => 0,
        };
        let angular_velocity0 = spec_fp_add(
            b.angular_velocity,
            spec_fp_mul(angular_acceleration, dt),
        );
        let rotation = spec_fp_add(b.rotation, spec_fp_mul(angular_velocity0, dt));
        let angular_velocity = if b.material.drag > 0 {
            spec_fp_mul(
                angular_velocity0,
                spec_fp_max(spec_fp_sub(FP_ONE, spec_fp_mul(b.material.drag, dt)), 0),
            )
        } else {
            angular_velocity0
        };
        let moved = RigidBody {
            position,
            velocity,
            acceleration,
            rotation,
            angular_velocity,
            angular_acceleration,
            collider: Collider { position, ..b.collider },
            force_accumulator: Vec2 { x: 0, y: 0 },
            torque_accumulator: 0,
            ..b
        };
        if sleep_enabled {
            let timed = RigidBody {
                sleep_timer: if velocity.spec_length() < crate::rigid_body::SLEEP_VELOCITY_THRESHOLD {
                    spec_fp_add(b.sleep_timer, dt)
                } else {
                    0
                },
                ..moved
            };
            if timed.spec_should_sleep() {
                RigidBody { is_sleeping: true, velocity: Vec2 { x: 0, y: 0 }, ..timed }
            } else {
                timed
            }
        } else {
            moved
        }
    } else if b.body_type == BodyType::Kinematic {
        let position = b.position.spec_add(b.velocity.spec_scale(dt));
        RigidBody { position, collider: Collider { position, ..b.collider }, ..b }
    } else {
        b
    }
}

impl PhysicsWorld {
    /// Accumulate global gravity, gravity-field pulls and drag on every
    /// awake dynamic body.
    fn apply_forces(&mut self)
        ensures
            final(self).bodies_seq() == old(self).bodies_seq().map_values(
                |b: RigidBody|
                    with_forces(
                        b,
                        old(self).gravity(),
                        gravity_sources(
                            old(self).bodies_seq(),
                            old(self).bodies_seq().len() as int,
                        ),
                    ),
            ),
            final(self).next_id() == old(self).next_id(),
            final(self).gravity() == old(self).gravity(),
            final(self).events_seq() == old(self).events_seq(),
            final(self).sleep_enabled_flag() == old(self).sleep_enabled_flag(),
            final(self).substeps_count() == old(self).substeps_count(),
    {
        let n = self.bodies.len();
        let mut sources: Vec<(BodyId, Vec2, GravityField)> = Vec::new();
        let mut i: usize = 0;
        while i < n
            invariant
                n == self.bodies@.len(),
                i <= n,
                *self == *old(self),
                sources@ == gravity_sources(self.bodies@, i as int),
            decreases n - i,
        {
            let body = &self.bodies[i];
            match body.gravity_field {
                Some(g) => {
                    sources.push((body.id, body.position, g));
                },
                None => {},
            }
            i = i + 1;
        }
        let ghost all_sources = gravity_sources(old(self).bodies@, n as int);
        let num_sources = sources.len();

        // Apply forces to dynamic bodies
        let mut i: usize = 0;
        while i < n
            invariant
                n == self.bodies@.len(),
                i <= n,
                num_sources == sources@.len(),
                sources@ == all_sources,
                all_sources == gravity_sources(old(self).bodies@, n as int),
                forall|k: int|
                    0 <= k < i ==> self.bodies@[k] == with_forces(
                        old(self).bodies@[k],
                        old(self).global_gravity,
                        all_sources,
                    ),
                forall|k: int| i <= k < n ==> self.bodies@[k] == old(self).bodies@[k],
                self.next_body_id == old(self).next_body_id,
                self.global_gravity == old(self).global_gravity,
                self.collision_events@ == old(self).collision_events@,
                self.sleep_enabled == old(self).sleep_enabled,
                self.substeps == old(self).substeps,
            decreases n - i,
        {
            let b = self.bodies[i];
            if b.body_type == BodyType::Dynamic && !b.is_sleeping {
                let m = match b.mass {
                    Mass::Value(v) => v,
                    Mass::Infinite => 0,
                };
                // Apply global gravity
                let mut acc = b.force_accumulator.add(self.global_gravity.scale(m));

                // Apply gravity from other bodies with gravity fields
                let mut k: usize = 0;
                while k < num_sources
                    invariant
                        num_sources == sources@.len(),
                        k <= num_sources,
                        acc == field_pulls(
                            b,
                            sources@,
                            k as int,
                            b.force_accumulator.spec_add(self.global_gravity.spec_scale(m)),
                        ),
                        m == mass_or_zero(b.mass),
                        self.global_gravity == old(self).global_gravity,
                    decreases num_sources - k,
                {
                    let (other_id, other_position, field) = sources[k];
                    if other_id != b.id {
                        let d = crate::vec2::dist(b.position, other_position);
                        if d < field.radius && d > GRAVITY_FIELD_MIN_DISTANCE {
                            let direction = crate::vec2::unit_toward(b.position, other_position);
                            let force_magnitude = field.calculate_force(d, m);
                            acc = acc.add(direction.scale(force_magnitude));
                        }
                    }
                    k = k + 1;
                }

                // Apply drag
                if b.material.drag > 0 {
                    acc = acc.add(b.velocity.neg().scale(b.material.drag).scale(m));
                }
                self.bodies[i] = RigidBody { force_accumulator: acc, ..b };
            }
            i = i + 1;
        }
        proof {
            assert(self.bodies@ =~= old(self).bodies@.map_values(
                |b: RigidBody| with_forces(b, old(self).global_gravity, all_sources),
            ));
        }
    }

    /// Integrate every body over `dt`.
    fn integrate(&mut self, dt: i64)
        ensures
            final(self).bodies_seq() == old(self).bodies_seq().map_values(
                |b: RigidBody| integrated(b, dt, old(self).sleep_enabled_flag()),
            ),
            final(self).next_id() == old(self).next_id(),
            final(self).gravity() == old(self).gravity(),
            final(self).events_seq() == old(self).events_seq(),
            final(self).sleep_enabled_flag() == old(self).sleep_enabled_flag(),
            final(self).substeps_count() == old(self).substeps_count(),
    {
        let n = self.bodies.len();
        let mut i: usize = 0;
        while i < n
            invariant
                n == self.bodies@.len(),
                i <= n,
                forall|k: int|
                    0 <= k < i ==> self.bodies@[k] == integrated(
                        old(self).bodies@[k],
                        dt,
                        old(self).sleep_enabled,
                    ),
                forall|k: int| i <= k < n ==> self.bodies@[k] == old(self).bodies@[k],
                self.next_body_id == old(self).next_body_id,
                self.global_gravity == old(self).global_gravity,
                self.collision_events@ == old(self).collision_events@,
                self.sleep_enabled == old(self).sleep_enabled,
                self.substeps == old(self).substeps,
            decreases n - i,
        {
            let b = self.bodies[i];
            if b.body_type == BodyType::Dynamic && !b.is_sleeping {
                // Calculate acceleration from forces (F = ma, so a = F/m)
                let acceleration = match b.mass {
                    Mass::Value(m) => {
                        if m > 0 {
                            b.force_accumulator.div_scale(m)
                        } else {
                            Vec2::zero()
                        }
                    },
                    Mass::Infinite => Vec2::zero(),
                };

                // Integrate velocity (v = v0 + a*dt), then position
                let velocity = b.velocity.add(acceleration.scale(dt));
                let position = b.position.add(velocity.scale(dt));

                // Angular integration
                let angular_acceleration = match b.moment_of_inertia {
                    Mass::Value(moi) => {
                        if moi > 0 {
                            fp_div(b.torque_accumulator, moi)
                        } else {
                            0
                        }
                    },
                    Mass::Infinite => 0,
                };
                let angular_velocity0 = fp_add(
                    b.angular_velocity,
                    fp_mul(angular_acceleration, dt),
                );
                let rotation = fp_add(b.rotation, fp_mul(angular_velocity0, dt));

                // Apply angular drag as exponential decay
                let angular_velocity = if b.material.drag > 0 {
                    fp_mul(angular_velocity0, fp_max(fp_sub(FP_ONE, fp_mul(b.material.drag, dt)), 0))
                } else {
                    angular_velocity0
                };

                // Sync collider, clear accumulators
                let mut nb = RigidBody {
                    position,
                    velocity,
                    acceleration,
                    rotation,
                    angular_velocity,
                    angular_acceleration,
                    collider: Collider { position, ..b.collider },
                    force_accumulator: Vec2::zero(),
                    torque_accumulator: 0,
                    ..b
                };

                // Update sleep timer, and sleep once still long enough
                if self.sleep_enabled {
                    nb.sleep_timer = if velocity.length() < crate::rigid_body::SLEEP_VELOCITY_THRESHOLD {
                        fp_add(b.sleep_timer, dt)
                    } else {
                        0
                    };
                    if nb.should_sleep() {
                        nb.is_sleeping = true;
                        nb.velocity = Vec2::zero();
                    }
                }
                self.bodies[i] = nb;
            } else if b.body_type == BodyType::Kinematic {
                // Kinematic bodies only update position based on velocity
                let position = b.position.add(b.velocity.scale(dt));
                self.bodies[i] = RigidBody {
                    position,
                    collider: Collider { position, ..b.collider },
                    ..b
                };
            }
            i = i + 1;
        }
        proof {
            assert(self.bodies@ =~= old(self).bodies@.map_values(
                |b: RigidBody| integrated(b, dt, old(self).sleep_enabled),
            ));
        }
    }
}

/// Inverse mass used by the impulse solver: zero for an infinite (or
/// degenerate) mass, so such a body absorbs no impulse.
pub open spec fn inv_mass_of(b: RigidBody) -> i64 {
    b.mass.spec_inverse()
}

/// Inverse moment of inertia used by the impulse solver.
pub open spec fn inv_inertia_of(b: RigidBody) -> i64 {
    b.moment_of_inertia.spec_inverse()
}

/// A body roused by contact: only a body that was actually sleeping is
/// woken, so an awake body's sleep timer is not disturbed.
pub open spec fn roused(b: RigidBody) -> RigidBody {
    if b.is_sleeping {
        woken(b)
    } else {
        b
    }
}

/// The bodies after the impulse part of resolving pair `(i, j)` against
/// `normal` at `cp`: a sleeping body wakes; if the relative contact velocity
/// (including each body's angular contribution through its lever arm) is
/// not separating and the combined inverse-mass/inverse-inertia
/// denominator is positive, a restitution-scaled normal impulse is
/// exchanged, followed by a capped tangential friction impulse when the
/// tangential speed exceeds the deadzone.  Only dynamic bodies change
/// their velocities.
pub open spec fn impulse_applied(
    s: Seq<RigidBody>,
    i: int,
    j: int,
    normal: Vec2,
    cp: Vec2,
) -> Seq<RigidBody> {
    let s0 = s.update(i, roused(s[i])).update(j, roused(s[j]));
    let a = s0[i];
    let b = s0[j];
    let r1 = cp.spec_sub(a.position);
    let r2 = cp.spec_sub(b.position);
    let v1c = a.velocity.spec_add(r1.spec_perp().spec_scale(a.angular_velocity));
    let v2c = b.velocity.spec_add(r2.spec_perp().spec_scale(b.angular_velocity));
    let rel = v2c.spec_sub(v1c);
    let vn = rel.spec_dot(normal);
    if vn > 0 {
        // Already separating: no impulse (the wake stays)
        s0
    } else {
        let im1 = inv_mass_of(a);
        let im2 = inv_mass_of(b);
        let ii1 = inv_inertia_of(a);
        let ii2 = inv_inertia_of(b);
        let r1xn = r1.spec_cross(normal);
        let r2xn = r2.spec_cross(normal);
        let denom = spec_fp_add(
            spec_fp_add(
                spec_fp_add(im1, im2),
                spec_fp_mul(spec_fp_mul(r1xn, r1xn), ii1),
            ),
            spec_fp_mul(spec_fp_mul(r2xn, r2xn), ii2),
        );
        if denom <= 0 {
            // Both bodies immovable: nothing to exchange
            s0
        } else {
            let e = spec_int_div(spec_fp_add(a.material.restitution, b.material.restitution), 2);
            let js = spec_fp_div(spec_fp_mul(spec_fp_neg(spec_fp_add(FP_ONE, e)), vn), denom);
            let impulse = normal.spec_scale(js);
            let a1 = if a.body_type == BodyType::Dynamic {
                RigidBody {
                    velocity: a.velocity.spec_sub(impulse.spec_scale(im1)),
                    angular_velocity: spec_fp_sub(
                        a.angular_velocity,
                        spec_fp_mul(spec_fp_mul(r1xn, js), ii1),
                    ),
                    ..a
                }
            } else {
                a
            };
            let b1 = if b.body_type == BodyType::Dynamic {
                RigidBody {
                    velocity: b.velocity.spec_add(impulse.spec_scale(im2)),
                    angular_velocity: spec_fp_add(
                        b.angular_velocity,
                        spec_fp_mul(spec_fp_mul(r2xn, js), ii2),
                    ),
                    ..b
                }
            } else {
                b
            };
            let friction = spec_int_div(spec_fp_add(a.material.friction, b.material.friction), 2);
            let tangent = normal.spec_perp();
            let rvt = rel.spec_dot(tangent);
            let r1xt = r1.spec_cross(tangent);
            let r2xt = r2.spec_cross(tangent);
            let tdenom = spec_fp_add(
                spec_fp_add(
                    spec_fp_add(im1, im2),
                    spec_fp_mul(spec_fp_mul(r1xt, r1xt), ii1),
                ),
                spec_fp_mul(spec_fp_mul(r2xt, r2xt), ii2),
            );
            if friction > 0 && crate::fp::spec_fp_abs(rvt) > FRICTION_DEADZONE && tdenom > 0 {
                let fj0 = spec_fp_div(spec_fp_neg(rvt), tdenom);
                let maxf = spec_fp_mul(
                    spec_fp_mul(friction, crate::fp::spec_fp_abs(js)),
                    FRICTION_CAP_SCALE,
                );
                let nmaxf = spec_fp_neg(maxf);
                let fj = if fj0 < nmaxf {
                    nmaxf
                } else if fj0 > maxf {
                    maxf
                } else {
                    fj0
                };
                let fimpulse = tangent.spec_scale(fj);
                let a2 = if a1.body_type == BodyType::Dynamic {
                    RigidBody {
                        velocity: a1.velocity.spec_sub(fimpulse.spec_scale(im1)),
                        angular_velocity: spec_fp_sub(
                            a1.angular_velocity,
                            spec_fp_mul(spec_fp_mul(r1xt, fj), ii1),
                        ),
                        ..a1
                    }
                } else {
                    a1
                };
                let b2 = if b1.body_type == BodyType::Dynamic {
                    RigidBody {
                        velocity: b1.velocity.spec_add(fimpulse.spec_scale(im2)),
                        angular_velocity: spec_fp_add(
                            b1.angular_velocity,
                            spec_fp_mul(spec_fp_mul(r2xt, fj), ii2),
                        ),
                        ..b1
                    }
                } else {
                    b1
                };
                s0.update(i, a2).update(j, b2)
            } else {
                s0.update(i, a1).update(j, b1)
            }
        }
    }
}

/// The bodies after positional correction of pair `(i, j)`: a penetration
/// beyond the slop pushes the dynamic bodies apart along the normal by
/// `penetration * CORRECTION_PERCENT`, split by inverse mass.  The
/// correction is deliberately unconditional on the penetration alone: it
/// runs even when the impulse step was skipped because the bodies were
/// already separating, so resting contacts cannot sink.
pub open spec fn correction_applied(
    s: Seq<RigidBody>,
    i: int,
    j: int,
    normal: Vec2,
    penetration: i64,
) -> Seq<RigidBody> {
    if penetration <= CORRECTION_SLOP {
        s
    } else {
        let a = s[i];
        let b = s[j];
        let im1 = inv_mass_of(a);
        let im2 = inv_mass_of(b);
        let cden = spec_fp_add(im1, im2);
        if cden <= 0 {
            s
        } else {
            let correction = normal.spec_scale(penetration).spec_scale(
                CORRECTION_PERCENT,
            ).spec_div_scale(cden);
            let a1 = if a.body_type == BodyType::Dynamic {
                let position = a.position.spec_sub(correction.spec_scale(im1));
                RigidBody { position, collider: Collider { position, ..a.collider }, ..a }
            } else {
                a
            };
            let b1 = if b.body_type == BodyType::Dynamic {
                let position = b.position.spec_add(correction.spec_scale(im2));
                RigidBody { position, collider: Collider { position, ..b.collider }, ..b }
            } else {
                b
            };
            s.update(i, a1).update(j, b1)
        }
    }
}

/// Full resolution of pair `(i, j)` (meaningful for `i < j` within the
/// sequence): skipped when the pair no longer overlaps or penetrates
/// beyond the extreme threshold; otherwise an event is recorded and the
/// impulse and positional correction are applied in turn.
pub open spec fn pair_resolution(s: Seq<RigidBody>, i: int, j: int) -> (
    Seq<RigidBody>,
    Option<CollisionEvent>,
) {
    let a = s[i];
    let b = s[j];
    if !(0 <= i < j < s.len()) {
        (s, None)
    } else if !collides(a.collider, b.collider) {
        (s, None)
    } else {
        let penetration = penetration_of(a.collider, b.collider);
        if penetration > EXTREME_PENETRATION_THRESHOLD {
            (s, None)
        } else {
            let normal = collision_normal_of(a.collider, b.collider, a.position, b.position);
            let cp = contact_point(a.collider, b.collider);
            let ev = CollisionEvent {
                body1_id: a.id,
                body2_id: b.id,
                contact_point: cp,
                normal,
            };
            let s1 = impulse_applied(s, i, j, normal, cp);
            let s2 = correction_applied(s1, i, j, normal, penetration);
            (s2, Some(ev))
        }
    }
}

/// Whether both members of a pair are static (such pairs are skipped).
pub open spec fn static_pair(s: Seq<RigidBody>, i: int, j: int) -> bool {
    s[i].body_type == BodyType::Static && s[j].body_type == BodyType::Static
}

/// The candidate pairs `(i, k)` for `i < k < j`: not both static, and
/// overlapping, in ascending `k` order.
pub open spec fn row_pairs(s: Seq<RigidBody>, i: int, j: int) -> Seq<(usize, usize)>
    decreases j - i,
{
    if j <= i + 1 {
        Seq::empty()
    } else {
        let rest = row_pairs(s, i, j - 1);
        if !static_pair(s, i, j - 1) && collides(s[i].collider, s[j - 1].collider) {
            rest.push((i as usize, (j - 1) as usize))
        } else {
            rest
        }
    }
}

/// All candidate pairs with first index below `i`, in ascending `(i, j)`
/// order — the order resolution visits them in.
pub open spec fn candidate_pairs(s: Seq<RigidBody>, i: int) -> Seq<(usize, usize)>
    decreases i,
{
    if i <= 0 {
        Seq::empty()
    } else {
        candidate_pairs(s, i - 1) + row_pairs(s, i - 1, s.len() as int)
    }
}

/// The bodies and events after resolving the first `k` candidate pairs in
/// order.
pub open spec fn resolved_over(
    s: Seq<RigidBody>,
    events: Seq<CollisionEvent>,
    pairs: Seq<(usize, usize)>,
    k: int,
) -> (Seq<RigidBody>, Seq<CollisionEvent>)
    decreases k,
{
    if k <= 0 {
        (s, events)
    } else {
        let prev = resolved_over(s, events, pairs, k - 1);
        let p = pairs[k - 1];
        let step = pair_resolution(prev.0, p.0 as int, p.1 as int);
        (
            step.0,
            match step.1 {
                Some(e) => prev.1.push(e),
                None => prev.1,
            },
        )
    }
}

impl PhysicsWorld {
    /// Apply the impulse response for pair `(i, j)`.
    #[verifier::rlimit(100)]
    fn apply_collision_impulse(&mut self, i: usize, j: usize, normal: Vec2, cp: Vec2)
        requires
            i < j < old(self).bodies_seq().len(),
        ensures
            final(self).bodies_seq() == impulse_applied(
                old(self).bodies_seq(),
                i as int,
                j as int,
                normal,
                cp,
            ),
            final(self).next_id() == old(self).next_id(),
            final(self).gravity() == old(self).gravity(),
            final(self).events_seq() == old(self).events_seq(),
            final(self).sleep_enabled_flag() == old(self).sleep_enabled_flag(),
            final(self).substeps_count() == old(self).substeps_count(),
    {
        if self.bodies[i].is_sleeping {
            let body = &mut self.bodies[i];
            body.wake_up();
        }
        if self.bodies[j].is_sleeping {
            let body = &mut self.bodies[j];
            body.wake_up();
        }
        proof {
            assert(self.bodies@ =~= old(self).bodies@.update(
                i as int,
                roused(old(self).bodies@[i as int]),
            ).update(j as int, roused(old(self).bodies@[j as int])));
        }
        let ghost s0 = self.bodies@;

        let a = self.bodies[i];
        let b = self.bodies[j];

        // Contact points relative to the centers of mass
        let r1 = cp.sub(a.position);
        let r2 = cp.sub(b.position);

        // Relative velocity at the contact point including rotation
        let v1c = a.velocity.add(r1.perp().scale(a.angular_velocity));
        let v2c = b.velocity.add(r2.perp().scale(b.angular_velocity));
        let rel = v2c.sub(v1c);
        let vn = rel.dot(normal);

        // Don't resolve if velocities are separating
        if vn > 0 {
            return ;
        }
        let im1 = a.mass.inverse();
        let im2 = b.mass.inverse();
        let ii1 = a.moment_of_inertia.inverse();
        let ii2 = b.moment_of_inertia.inverse();

        // Impulse scalar including the angular lever-arm terms
        let r1xn = r1.cross(normal);
        let r2xn = r2.cross(normal);
        let denom = fp_add(
            fp_add(fp_add(im1, im2), fp_mul(fp_mul(r1xn, r1xn), ii1)),
            fp_mul(fp_mul(r2xn, r2xn), ii2),
        );
        if denom <= 0 {
            return ;
        }
        let e = int_div(fp_add(a.material.restitution, b.material.restitution), 2);
        let js = fp_div(fp_mul(fp_neg(fp_add(FP_ONE, e)), vn), denom);
        let impulse = normal.scale(js);

        // Apply linear and angular impulse
        if a.body_type == BodyType::Dynamic {
            let na = RigidBody {
                velocity: a.velocity.sub(impulse.scale(im1)),
                angular_velocity: fp_sub(a.angular_velocity, fp_mul(fp_mul(r1xn, js), ii1)),
                ..a
            };
            self.bodies[i] = na;
        }
        if b.body_type == BodyType::Dynamic {
            let nb = RigidBody {
                velocity: b.velocity.add(impulse.scale(im2)),
                angular_velocity: fp_add(b.angular_velocity, fp_mul(fp_mul(r2xn, js), ii2)),
                ..b
            };
            self.bodies[j] = nb;
        }

        // Friction, with a deadzone and a Coulomb-like cap
        let friction = int_div(fp_add(a.material.friction, b.material.friction), 2);
        let tangent = normal.perp();
        let rvt = rel.dot(tangent);
        let r1xt = r1.cross(tangent);
        let r2xt = r2.cross(tangent);
        let tdenom = fp_add(
            fp_add(fp_add(im1, im2), fp_mul(fp_mul(r1xt, r1xt), ii1)),
            fp_mul(fp_mul(r2xt, r2xt), ii2),
        );
        if friction > 0 && crate::fp::fp_abs(rvt) > FRICTION_DEADZONE && tdenom > 0 {
            let fj0 = fp_div(fp_neg(rvt), tdenom);
            let maxf = fp_mul(fp_mul(friction, crate::fp::fp_abs(js)), FRICTION_CAP_SCALE);
            let nmaxf = fp_neg(maxf);
            let fj = if fj0 < nmaxf {
                nmaxf
            } else if fj0 > maxf {
                maxf
            } else {
                fj0
            };
            let fimpulse = tangent.scale(fj);

            // Apply friction impulse (linear and angular)
            if a.body_type == BodyType::Dynamic {
                let a1 = self.bodies[i];
                let na = RigidBody {
                    velocity: a1.velocity.sub(fimpulse.scale(im1)),
                    angular_velocity: fp_sub(a1.angular_velocity, fp_mul(fp_mul(r1xt, fj), ii1)),
                    ..a1
                };
                self.bodies[i] = na;
            }
            if b.body_type == BodyType::Dynamic {
                let b1 = self.bodies[j];
                let nb = RigidBody {
                    velocity: b1.velocity.add(fimpulse.scale(im2)),
                    angular_velocity: fp_add(b1.angular_velocity, fp_mul(fp_mul(r2xt, fj), ii2)),
                    ..b1
                };
                self.bodies[j] = nb;
            }
        }
        proof {
            assert(self.bodies@ =~= impulse_applied(
                old(self).bodies@,
                i as int,
                j as int,
                normal,
                cp,
            ));
        }
    }

    /// Apply positional correction for pair `(i, j)` to prevent sinking.
    fn apply_position_correction(&mut self, i: usize, j: usize, normal: Vec2, penetration: i64)
        requires
            i < j < old(self).bodies_seq().len(),
        ensures
            final(self).bodies_seq() == correction_applied(
                old(self).bodies_seq(),
                i as int,
                j as int,
                normal,
                penetration,
            ),
            final(self).next_id() == old(self).next_id(),
            final(self).gravity() == old(self).gravity(),
            final(self).events_seq() == old(self).events_seq(),
            final(self).sleep_enabled_flag() == old(self).sleep_enabled_flag(),
            final(self).substeps_count() == old(self).substeps_count(),
    {
        if penetration <= CORRECTION_SLOP {
            return ;
        }
        let a = self.bodies[i];
        let b = self.bodies[j];
        let im1 = a.mass.inverse();
        let im2 = b.mass.inverse();
        let cden = fp_add(im1, im2);
        if cden <= 0 {
            return ;
        }
        let correction = normal.scale(penetration).scale(CORRECTION_PERCENT).div_scale(cden);

        // Apply position correction to dynamic bodies
        if a.body_type == BodyType::Dynamic {
            let position = a.position.sub(correction.scale(im1));
            self.bodies[i] = RigidBody {
                position,
                collider: Collider { position, ..a.collider },
                ..a
            };
        }
        if b.body_type == BodyType::Dynamic {
            let position = b.position.add(correction.scale(im2));
            self.bodies[j] = RigidBody {
                position,
                collider: Collider { position, ..b.collider },
                ..b
            };
        }
        proof {
            assert(self.bodies@ =~= correction_applied(
                old(self).bodies@,
                i as int,
                j as int,
                normal,
                penetration,
            ));
        }
    }

    /// Resolve one collision pair: re-derive the contact, skip degenerate
    /// penetrations, record the event, then apply impulse and correction.
    fn resolve_collision_pair(&mut self, i: usize, j: usize)
        requires
            i < j < old(self).bodies_seq().len(),
        ensures
            ({
                let r = pair_resolution(old(self).bodies_seq(), i as int, j as int);
                &&& final(self).bodies_seq() == r.0
                &&& final(self).events_seq() == match r.1 {
                    Some(e) => old(self).events_seq().push(e),
                    None => old(self).events_seq(),
                }
            }),
            final(self).bodies_seq().len() == old(self).bodies_seq().len(),
            final(self).next_id() == old(self).next_id(),
            final(self).gravity() == old(self).gravity(),
            final(self).sleep_enabled_flag() == old(self).sleep_enabled_flag(),
            final(self).substeps_count() == old(self).substeps_count(),
    {
        let a_collider = self.bodies[i].collider;
        let b_collider = self.bodies[j].collider;
        let collision_result = check_collision_with_point(&a_collider, &b_collider);
        if !collision_result.collided {
            return ;
        }
        let penetration = calculate_penetration(&a_collider, &b_collider);

        // Skip if penetration is too extreme
        if penetration > EXTREME_PENETRATION_THRESHOLD {
            return ;
        }
        let normal = calculate_collision_normal(
            &a_collider,
            &b_collider,
            self.bodies[i].position,
            self.bodies[j].position,
        );

        // Record the collision event
        self.collision_events.push(
            CollisionEvent {
                body1_id: self.bodies[i].id,
                body2_id: self.bodies[j].id,
                contact_point: collision_result.contact_point,
                normal,
            },
        );

        // Impulse response, then positional correction
        self.apply_collision_impulse(i, j, normal, collision_result.contact_point);
        self.apply_position_correction(i, j, normal, penetration);
    }

    /// Detect all colliding pairs (all-pairs scan, static pairs skipped)
    /// and resolve them in ascending `(i, j)` order.
    fn resolve_collisions(&mut self)
        ensures
            ({
                let s = old(self).bodies_seq();
                let pairs = candidate_pairs(s, s.len() as int);
                let r = resolved_over(s, old(self).events_seq(), pairs, pairs.len() as int);
                &&& final(self).bodies_seq() == r.0
                &&& final(self).events_seq() == r.1
            }),
            final(self).bodies_seq().len() == old(self).bodies_seq().len(),
            final(self).next_id() == old(self).next_id(),
            final(self).gravity() == old(self).gravity(),
            final(self).sleep_enabled_flag() == old(self).sleep_enabled_flag(),
            final(self).substeps_count() == old(self).substeps_count(),
    {
        let n = self.bodies.len();
        let ghost s = self.bodies@;

        // Collect collision pairs first
        let mut collision_pairs: Vec<(usize, usize)> = Vec::new();
        let mut i: usize = 0;
        while i < n
            invariant
                n == self.bodies@.len(),
                i <= n,
                *self == *old(self),
                s == self.bodies@,
                collision_pairs@ == candidate_pairs(s, i as int),
                forall|k: int|
                    0 <= k < collision_pairs@.len() ==> (#[trigger] collision_pairs@[k]).0
                        < collision_pairs@[k].1 < n,
            decreases n - i,
        {
            let mut j: usize = i + 1;
            proof {
                assert(row_pairs(s, i as int, j as int) =~= Seq::<(usize, usize)>::empty());
            }
            while j < n
                invariant
                    n == self.bodies@.len(),
                    i < j <= n || j == i + 1,
                    *self == *old(self),
                    s == self.bodies@,
                    collision_pairs@ == candidate_pairs(s, i as int) + row_pairs(
                        s,
                        i as int,
                        j as int,
                    ),
                    forall|k: int|
                        0 <= k < collision_pairs@.len() ==> (#[trigger] collision_pairs@[k]).0
                            < collision_pairs@[k].1 < n,
                decreases n - j,
            {
                // Skip collision between static bodies
                let both_static = self.bodies[i].body_type == BodyType::Static
                    && self.bodies[j].body_type == BodyType::Static;
                if !both_static && check_collision(&self.bodies[i].collider, &self.bodies[j].collider) {
                    collision_pairs.push((i, j));
                }
                j = j + 1;
            }
            proof {
                if n <= i + 1 {
                    assert(row_pairs(s, i as int, n as int) =~= Seq::<(usize, usize)>::empty());
                }
            }
            i = i + 1;
        }

        // Resolve collisions in discovery order
        let ghost pairs = collision_pairs@;
        let ghost events0 = self.collision_events@;
        let num_pairs = collision_pairs.len();
        let mut k: usize = 0;
        while k < num_pairs
            invariant
                num_pairs == pairs.len(),
                k <= num_pairs,
                collision_pairs@ == pairs,
                forall|m: int| 0 <= m < pairs.len() ==> (#[trigger] pairs[m]).0 < pairs[m].1 < n,
                ({
                    let r = resolved_over(s, events0, pairs, k as int);
                    self.bodies@ == r.0 && self.collision_events@ == r.1
                }),
                self.bodies@.len() == n,
                self.next_body_id == old(self).next_body_id,
                self.global_gravity == old(self).global_gravity,
                self.sleep_enabled == old(self).sleep_enabled,
                self.substeps == old(self).substeps,
            decreases num_pairs - k,
        {
            let (pi, pj) = collision_pairs[k];
            self.resolve_collision_pair(pi, pj);
            k = k + 1;
        }
    }
}

/// One full sub-step over `dt`: force accumulation, integration, then
/// collision detection and resolution, with a fresh event log.
pub open spec fn sub_stepped(s: Seq<RigidBody>, gravity: Vec2, sleep_enabled: bool, dt: i64) -> (
    Seq<RigidBody>,
    Seq<CollisionEvent>,
) {
    let forced = s.map_values(
        |b: RigidBody| with_forces(b, gravity, gravity_sources(s, s.len() as int)),
    );
    let moved = forced.map_values(|b: RigidBody| integrated(b, dt, sleep_enabled));
    let pairs = candidate_pairs(moved, moved.len() as int);
    resolved_over(moved, Seq::empty(), pairs, pairs.len() as int)
}

/// `k` sub-steps over `sub_dt` each; the event log carries only the last
/// sub-step's events.
pub open spec fn stepped(
    s: Seq<RigidBody>,
    events: Seq<CollisionEvent>,
    gravity: Vec2,
    sleep_enabled: bool,
    sub_dt: i64,
    k: nat,
) -> (Seq<RigidBody>, Seq<CollisionEvent>)
    decreases k,
{
    if k == 0 {
        (s, events)
    } else {
        let prev = stepped(s, events, gravity, sleep_enabled, sub_dt, (k - 1) as nat);
        sub_stepped(prev.0, gravity, sleep_enabled, sub_dt)
    }
}

impl PhysicsWorld {
    /// Internal physics sub-step: clear the event log, accumulate forces,
    /// integrate, then detect and resolve collisions.
    fn step_internal(&mut self, dt: i64)
        ensures
            ({
                let r = sub_stepped(
                    old(self).bodies_seq(),
                    old(self).gravity(),
                    old(self).sleep_enabled_flag(),
                    dt,
                );
                &&& final(self).bodies_seq() == r.0
                &&& final(self).events_seq() == r.1
            }),
            final(self).bodies_seq().len() == old(self).bodies_seq().len(),
            final(self).next_id() == old(self).next_id(),
            final(self).gravity() == old(self).gravity(),
            final(self).sleep_enabled_flag() == old(self).sleep_enabled_flag(),
            final(self).substeps_count() == old(self).substeps_count(),
    {
        self.clear_collision_events();
        self.apply_forces();
        self.integrate(dt);
        self.resolve_collisions();
    }

    /// Step the physics simulation forward by `dt` seconds (fixed-point):
    /// a non-positive `dt` is a no-op; otherwise `dt` is split into the
    /// configured number of equal sub-steps.
    pub fn step(&mut self, dt: i64)
        ensures
            dt <= 0 ==> *final(self) == *old(self),
            dt > 0 ==> ({
                let r = stepped(
                    old(self).bodies_seq(),
                    old(self).events_seq(),
                    old(self).gravity(),
                    old(self).sleep_enabled_flag(),
                    spec_int_div(dt, old(self).substeps_count() as i64),
                    old(self).substeps_count() as nat,
                );
                &&& final(self).bodies_seq() == r.0
                &&& final(self).events_seq() == r.1
            }),
            final(self).next_id() == old(self).next_id(),
            final(self).gravity() == old(self).gravity(),
            final(self).sleep_enabled_flag() == old(self).sleep_enabled_flag(),
            final(self).substeps_count() == old(self).substeps_count(),
    {
        if dt <= 0 {
            return ;
        }
        let substeps = self.substeps;
        let sub_dt = if substeps >= 1 {
            int_div(dt, substeps as i64)
        } else {
            dt
        };
        let mut c: u32 = 0;
        while c < substeps
            invariant
                substeps == self.substeps,
                c <= substeps,
                substeps >= 1 ==> sub_dt == spec_int_div(dt, substeps as i64),
                ({
                    let r = stepped(
                        old(self).bodies_seq(),
                        old(self).events_seq(),
                        old(self).gravity(),
                        old(self).sleep_enabled_flag(),
                        sub_dt,
                        c as nat,
                    );
                    self.bodies@ == r.0 && self.collision_events@ == r.1
                }),
                self.next_body_id == old(self).next_body_id,
                self.global_gravity == old(self).global_gravity,
                self.sleep_enabled == old(self).sleep_enabled,
            decreases substeps - c,
        {
            self.step_internal(sub_dt);
            c = c + 1;
        }
    }
}

} // verus!
