//! Rigid bodies: kinematic and dynamic state, force and impulse
//! application, and sleep management.

use vstd::prelude::*;
use crate::collision::{Collider, CollisionShape};
use crate::fp::{
    fp_add, fp_div, fp_max, fp_mul, int_div, spec_fp_add, spec_fp_div, spec_fp_max, spec_fp_mul,
    spec_int_div,
};
use crate::gravity::GravityField;
use crate::vec2::Vec2;
use crate::world_bounds::BoundsBehavior;

verus! {

/// Opaque handle to a body: assigned by the world on insertion,
/// monotonically increasing, never reused.
#[derive(Clone, Copy, Debug, PartialEq, Eq, Hash, Structural)]
pub struct BodyId(pub u32);

/// How a body participates in the simulation.  Static bodies never move
/// and start asleep; kinematic bodies integrate position from velocity but
/// ignore forces; dynamic bodies participate fully.
#[derive(Clone, Copy, Debug, PartialEq, Eq, Structural)]
pub enum BodyType {
    Static,
    Dynamic,
    Kinematic,
}

/// A mass or moment of inertia: finite (fixed-point) or infinite.
/// Static and kinematic bodies carry infinite mass.
#[derive(Clone, Copy, Debug, PartialEq, Eq, Structural)]
pub enum Mass {
    Infinite,
    Value(i64),
}

impl Mass {
    /// Fixed-point inverse: zero for an infinite or degenerate mass.
    pub open spec fn spec_inverse(self) -> i64 {
        match self {
            Mass::Infinite => 0,
            Mass::Value(m) => if m > 0 {
                spec_fp_div(crate::fp::FP_ONE, m)
            } else {
                0
            },
        }
    }

    #[verifier::when_used_as_spec(spec_inverse)]
    pub fn inverse(self) -> (r: i64)
        ensures
            r == self.spec_inverse(),
    {
        match self {
            Mass::Infinite => 0,
            Mass::Value(m) => {
                if m > 0 {
                    fp_div(crate::fp::FP_ONE, m)
                } else {
                    0
                }
            },
        }
    }

    pub open spec fn spec_is_infinite(self) -> bool {
        self is Infinite
    }

    #[verifier::when_used_as_spec(spec_is_infinite)]
    pub fn is_infinite(self) -> (r: bool)
        ensures
            r == self.spec_is_infinite(),
    {
        match self {
            Mass::Infinite => true,
            Mass::Value(m) => false,
        }
    }
}

/// Surface properties governing bounce, friction and damping.
#[derive(Clone, Copy, Debug, PartialEq, Eq, Structural)]
pub struct PhysicsMaterial {
    /// How bouncy the object is (0 = no bounce, `FP_ONE` = perfect bounce).
    pub restitution: i64,
    /// Surface friction coefficient (0 = none, `FP_ONE` = high).
    pub friction: i64,
    /// Air resistance (0 = no drag, higher = more drag).
    pub drag: i64,
}

impl Default for PhysicsMaterial {
    /// No bounce, moderate friction, no drag.
    fn default() -> (r: PhysicsMaterial)
        ensures
            r == (PhysicsMaterial { restitution: 0, friction: 500_000, drag: 0 }),
    {
        PhysicsMaterial { restitution: 0, friction: 500_000, drag: 0 }
    }
}

/// Smallest allowed finite mass (0.001), preventing division blowups.
pub const MIN_MASS: i64 = 1_000;

/// Speed under which a dynamic body is considered still (0.1 units/s).
pub const SLEEP_VELOCITY_THRESHOLD: i64 = 100_000;

/// How long a body must stay still before it may sleep (1 second).
pub const SLEEP_TIME_THRESHOLD: i64 = 1_000_000;

/// A simulated body: kinematic state, dynamic state, material, collider,
/// optional gravity field and sleep bookkeeping.
#[derive(Clone, Copy, Debug, PartialEq)]
pub struct RigidBody {
    pub id: BodyId,
    pub body_type: BodyType,
    pub position: Vec2,
    pub velocity: Vec2,
    pub acceleration: Vec2,
    pub mass: Mass,
    pub material: PhysicsMaterial,
    pub collider: Collider,
    pub gravity_field: Option<GravityField>,
    pub marked_for_deletion: bool,
    pub rotation: i64,
    pub angular_velocity: i64,
    pub angular_acceleration: i64,
    pub moment_of_inertia: Mass,
    pub bounds_behavior: Option<BoundsBehavior>,
    pub torque_accumulator: i64,
    pub force_accumulator: Vec2,
    pub is_sleeping: bool,
    pub sleep_timer: i64,
}

/// Moment of inertia from shape and mass: `m * r^2 / 2` for a solid disk,
/// `m * (w^2 + h^2) / 12` for a solid rectangle; infinite mass gives
/// infinite inertia.
pub open spec fn inertia_of(collider: Collider, mass: Mass) -> Mass {
    match mass {
        Mass::Infinite => Mass::Infinite,
        Mass::Value(m) => Mass::Value(
            match collider.shape {
                CollisionShape::Circle { radius } => spec_int_div(
                    spec_fp_mul(spec_fp_mul(m, radius), radius),
                    2,
                ),
                CollisionShape::Rectangle { width, height } => spec_int_div(
                    spec_fp_mul(
                        m,
                        spec_fp_add(spec_fp_mul(width, width), spec_fp_mul(height, height)),
                    ),
                    12,
                ),
            },
        ),
    }
}

/// `b` with its sleep state cleared, when dynamic; other bodies are
/// untouched.
pub open spec fn woken(b: RigidBody) -> RigidBody {
    if b.body_type == BodyType::Dynamic {
        RigidBody { is_sleeping: false, sleep_timer: 0, ..b }
    } else {
        b
    }
}

/// A body is well formed when a finite mass has been clamped to
/// `MIN_MASS`, the invariant every constructor establishes.
pub open spec fn body_wf(b: RigidBody) -> bool {
    b.mass matches Mass::Value(m) ==> m >= MIN_MASS
}

impl RigidBody {
    /// The full state a dynamic body starts in: awake, at rest, with the
    /// given collider and a mass clamped to `MIN_MASS`.
    pub open spec fn spec_new_dynamic(id: BodyId, position: Vec2, collider: Collider, mass: i64)
        -> RigidBody {
        let clamped = Mass::Value(spec_fp_max(mass, MIN_MASS));
        RigidBody {
            id,
            body_type: BodyType::Dynamic,
            position,
            velocity: Vec2 { x: 0, y: 0 },
            acceleration: Vec2 { x: 0, y: 0 },
            mass: clamped,
            material: PhysicsMaterial { restitution: 0, friction: 500_000, drag: 0 },
            collider,
            gravity_field: None,
            marked_for_deletion: false,
            rotation: 0,
            angular_velocity: 0,
            angular_acceleration: 0,
            moment_of_inertia: inertia_of(collider, clamped),
            bounds_behavior: None,
            torque_accumulator: 0,
            force_accumulator: Vec2 { x: 0, y: 0 },
            is_sleeping: false,
            sleep_timer: 0,
        }
    }

    /// Create a new dynamic rigid body.
    pub fn new_dynamic(id: BodyId, position: Vec2, collider: Collider, mass: i64) -> (r: RigidBody)
        ensures
            r == RigidBody::spec_new_dynamic(id, position, collider, mass),
            body_wf(r),
    {
        let clamped = fp_max(mass, MIN_MASS);
        RigidBody {
            id,
            body_type: BodyType::Dynamic,
            position,
            velocity: Vec2::zero(),
            acceleration: Vec2::zero(),
            mass: Mass::Value(clamped),
            material: PhysicsMaterial::default(),
            collider,
            gravity_field: None,
            marked_for_deletion: false,
            rotation: 0,
            angular_velocity: 0,
            angular_acceleration: 0,
            moment_of_inertia: calculate_moment_of_inertia(&collider, Mass::Value(clamped)),
            bounds_behavior: None,
            torque_accumulator: 0,
            force_accumulator: Vec2::zero(),
            is_sleeping: false,
            sleep_timer: 0,
        }
    }

    /// The full state a static body starts in: infinite mass, asleep,
    /// ignoring bounds.
    pub open spec fn spec_new_static(id: BodyId, position: Vec2, collider: Collider) -> RigidBody {
        RigidBody {
            id,
            body_type: BodyType::Static,
            position,
            velocity: Vec2 { x: 0, y: 0 },
            acceleration: Vec2 { x: 0, y: 0 },
            mass: Mass::Infinite,
            material: PhysicsMaterial { restitution: 0, friction: 500_000, drag: 0 },
            collider,
            gravity_field: None,
            marked_for_deletion: false,
            rotation: 0,
            angular_velocity: 0,
            angular_acceleration: 0,
            moment_of_inertia: Mass::Infinite,
            bounds_behavior: Some(BoundsBehavior::Ignore),
            torque_accumulator: 0,
            force_accumulator: Vec2 { x: 0, y: 0 },
            is_sleeping: true,
            sleep_timer: 0,
        }
    }

    /// Create a new static rigid body (walls, platforms).
    pub fn new_static(id: BodyId, position: Vec2, collider: Collider) -> (r: RigidBody)
        ensures
            r == RigidBody::spec_new_static(id, position, collider),
            body_wf(r),
    {
        RigidBody {
            id,
            body_type: BodyType::Static,
            position,
            velocity: Vec2::zero(),
            acceleration: Vec2::zero(),
            mass: Mass::Infinite,
            material: PhysicsMaterial::default(),
            collider,
            gravity_field: None,
            marked_for_deletion: false,
            rotation: 0,
            angular_velocity: 0,
            angular_acceleration: 0,
            moment_of_inertia: Mass::Infinite,
            bounds_behavior: Some(BoundsBehavior::Ignore),
            torque_accumulator: 0,
            force_accumulator: Vec2::zero(),
            is_sleeping: true,
            sleep_timer: 0,
        }
    }

    /// The full state a kinematic body starts in: infinite mass, awake.
    pub open spec fn spec_new_kinematic(id: BodyId, position: Vec2, collider: Collider)
        -> RigidBody {
        RigidBody {
            id,
            body_type: BodyType::Kinematic,
            position,
            velocity: Vec2 { x: 0, y: 0 },
            acceleration: Vec2 { x: 0, y: 0 },
            mass: Mass::Infinite,
            material: PhysicsMaterial { restitution: 0, friction: 500_000, drag: 0 },
            collider,
            gravity_field: None,
            marked_for_deletion: false,
            rotation: 0,
            angular_velocity: 0,
            angular_acceleration: 0,
            moment_of_inertia: Mass::Infinite,
            bounds_behavior: None,
            torque_accumulator: 0,
            force_accumulator: Vec2 { x: 0, y: 0 },
            is_sleeping: false,
            sleep_timer: 0,
        }
    }

    /// Create a new kinematic rigid body (moving platforms).
    pub fn new_kinematic(id: BodyId, position: Vec2, collider: Collider) -> (r: RigidBody)
        ensures
            r == RigidBody::spec_new_kinematic(id, position, collider),
            body_wf(r),
    {
        RigidBody {
            id,
            body_type: BodyType::Kinematic,
            position,
            velocity: Vec2::zero(),
            acceleration: Vec2::zero(),
            mass: Mass::Infinite,
            material: PhysicsMaterial::default(),
            collider,
            gravity_field: None,
            marked_for_deletion: false,
            rotation: 0,
            angular_velocity: 0,
            angular_acceleration: 0,
            moment_of_inertia: Mass::Infinite,
            bounds_behavior: None,
            torque_accumulator: 0,
            force_accumulator: Vec2::zero(),
            is_sleeping: false,
            sleep_timer: 0,
        }
    }

    pub fn with_bounds_behavior(self, behavior: BoundsBehavior) -> (r: RigidBody)
        ensures
            r == (RigidBody { bounds_behavior: Some(behavior), ..self }),
    {
        RigidBody { bounds_behavior: Some(behavior), ..self }
    }

    pub fn mark_for_deletion(&mut self)
        ensures
            *final(self) == (RigidBody { marked_for_deletion: true, ..*old(self) }),
    {
        self.marked_for_deletion = true;
    }

    /// Apply torque (rotational force); a no-op on non-dynamic bodies,
    /// wakes the body.
    pub fn apply_torque(&mut self, torque: i64)
        ensures
            old(self).body_type == BodyType::Dynamic ==> *final(self) == woken(
                RigidBody {
                    torque_accumulator: spec_fp_add(old(self).torque_accumulator, torque),
                    ..*old(self)
                },
            ),
            old(self).body_type != BodyType::Dynamic ==> *final(self) == *old(self),
    {
        if self.body_type == BodyType::Dynamic {
            self.torque_accumulator = fp_add(self.torque_accumulator, torque);
            self.wake_up();
        }
    }

    /// Apply an angular impulse (instant angular velocity change, scaled
    /// by the inverse moment of inertia); a no-op on non-dynamic bodies,
    /// wakes the body.  A degenerate (non-positive) finite inertia leaves
    /// the angular velocity unchanged.
    pub fn apply_angular_impulse(&mut self, impulse: i64)
        ensures
            old(self).body_type == BodyType::Dynamic ==> *final(self) == woken(
                RigidBody {
                    angular_velocity: match old(self).moment_of_inertia {
                        Mass::Value(i) => if i > 0 {
                            spec_fp_add(old(self).angular_velocity, spec_fp_div(impulse, i))
                        } else {
                            old(self).angular_velocity
                        },
                        Mass::Infinite => old(self).angular_velocity,
                    },
                    ..*old(self)
                },
            ),
            old(self).body_type != BodyType::Dynamic ==> *final(self) == *old(self),
    {
        if self.body_type == BodyType::Dynamic {
            match self.moment_of_inertia {
                Mass::Value(i) => {
                    if i > 0 {
                        self.angular_velocity = fp_add(self.angular_velocity, fp_div(impulse, i));
                    }
                },
                Mass::Infinite => {},
            }
            self.wake_up();
        }
    }

    /// Accumulate a force for the next integration step; a no-op on
    /// non-dynamic bodies, wakes the body.
    pub fn apply_force(&mut self, force: Vec2)
        ensures
            old(self).body_type == BodyType::Dynamic ==> *final(self) == woken(
                RigidBody {
                    force_accumulator: old(self).force_accumulator.spec_add(force),
                    ..*old(self)
                },
            ),
            old(self).body_type != BodyType::Dynamic ==> *final(self) == *old(self),
    {
        if self.body_type == BodyType::Dynamic {
            self.force_accumulator = self.force_accumulator.add(force);
            self.wake_up();
        }
    }

    /// Apply an impulse (instant velocity change, scaled by the inverse
    /// mass); a no-op on non-dynamic bodies, wakes the body.  A degenerate
    /// (non-positive or infinite) mass leaves the velocity unchanged.
    pub fn apply_impulse(&mut self, impulse: Vec2)
        ensures
            old(self).body_type == BodyType::Dynamic ==> *final(self) == woken(
                RigidBody {
                    velocity: match old(self).mass {
                        Mass::Value(m) => if m > 0 {
                            old(self).velocity.spec_add(impulse.spec_div_scale(m))
                        } else {
                            old(self).velocity
                        },
                        Mass::Infinite => old(self).velocity,
                    },
                    ..*old(self)
                },
            ),
            old(self).body_type != BodyType::Dynamic ==> *final(self) == *old(self),
    {
        if self.body_type == BodyType::Dynamic {
            match self.mass {
                Mass::Value(m) => {
                    if m > 0 {
                        self.velocity = self.velocity.add(impulse.div_scale(m));
                    }
                },
                Mass::Infinite => {},
            }
            self.wake_up();
        }
    }

    /// Set velocity directly (useful for kinematic bodies); a no-op on
    /// static bodies; wakes a dynamic body.
    pub fn set_velocity(&mut self, velocity: Vec2)
        ensures
            old(self).body_type != BodyType::Static ==> *final(self) == woken(
                RigidBody { velocity, ..*old(self) },
            ),
            old(self).body_type == BodyType::Static ==> *final(self) == *old(self),
    {
        if self.body_type != BodyType::Static {
            self.velocity = velocity;
            if self.body_type == BodyType::Dynamic {
                self.wake_up();
            }
        }
    }

    /// Set position directly, keeping the collider in sync; wakes a
    /// dynamic body.
    pub fn set_position(&mut self, position: Vec2)
        ensures
            *final(self) == woken(
                RigidBody {
                    position,
                    collider: Collider { position, ..old(self).collider },
                    ..*old(self)
                },
            ),
    {
        self.position = position;
        self.collider.position = position;
        if self.body_type == BodyType::Dynamic {
            self.wake_up();
        }
    }

    /// Wake up the body (stop it from sleeping); only dynamic bodies carry
    /// sleep state.
    pub fn wake_up(&mut self)
        ensures
            *final(self) == woken(*old(self)),
    {
        if self.body_type == BodyType::Dynamic {
            self.is_sleeping = false;
            self.sleep_timer = 0;
        }
    }

    /// True exactly for a dynamic body that has stayed under the sleep
    /// speed threshold for longer than the sleep time threshold.
    pub open spec fn spec_should_sleep(&self) -> bool {
        &&& self.body_type == BodyType::Dynamic
        &&& self.velocity.spec_length() < SLEEP_VELOCITY_THRESHOLD
        &&& self.sleep_timer > SLEEP_TIME_THRESHOLD
    }

    #[verifier::when_used_as_spec(spec_should_sleep)]
    pub fn should_sleep(&self) -> (r: bool)
        ensures
            r == self.spec_should_sleep(),
    {
        self.body_type == BodyType::Dynamic && self.velocity.length() < SLEEP_VELOCITY_THRESHOLD
            && self.sleep_timer > SLEEP_TIME_THRESHOLD
    }

    /// `m * |v|^2 / 2` for a finite mass, zero for an infinite one.
    pub open spec fn spec_kinetic_energy(&self) -> i64 {
        match self.mass {
            Mass::Infinite => 0,
            Mass::Value(m) => spec_int_div(
                spec_fp_mul(
                    m,
                    spec_fp_add(
                        spec_fp_mul(self.velocity.x, self.velocity.x),
                        spec_fp_mul(self.velocity.y, self.velocity.y),
                    ),
                ),
                2,
            ),
        }
    }

    #[verifier::when_used_as_spec(spec_kinetic_energy)]
    pub fn kinetic_energy(&self) -> (r: i64)
        ensures
            r == self.spec_kinetic_energy(),
    {
        match self.mass {
            Mass::Infinite => 0,
            Mass::Value(m) => {
                let len2 = fp_add(
                    fp_mul(self.velocity.x, self.velocity.x),
                    fp_mul(self.velocity.y, self.velocity.y),
                );
                int_div(fp_mul(m, len2), 2)
            },
        }
    }

    /// Drop any force accumulated for the next step.
    pub fn clear_forces(&mut self)
        ensures
            *final(self) == (RigidBody { force_accumulator: Vec2 { x: 0, y: 0 }, ..*old(self) }),
    {
        self.force_accumulator = Vec2::zero();
    }

    /// Set the initial position (the collider is synced by the next step).
    pub fn with_position(self, position: Vec2) -> (r: RigidBody)
        ensures
            r == (RigidBody { position, ..self }),
    {
        RigidBody { position, ..self }
    }

    /// Set the initial velocity.
    pub fn with_velocity(self, velocity: Vec2) -> (r: RigidBody)
        ensures
            r == (RigidBody { velocity, ..self }),
    {
        RigidBody { velocity, ..self }
    }

    /// Set the initial acceleration.
    pub fn with_acceleration(self, acceleration: Vec2) -> (r: RigidBody)
        ensures
            r == (RigidBody { acceleration, ..self }),
    {
        RigidBody { acceleration, ..self }
    }

    /// Set the mass (clamped to `MIN_MASS` to avoid division blowups).
    pub fn with_mass(self, mass: i64) -> (r: RigidBody)
        ensures
            r == (RigidBody { mass: Mass::Value(spec_fp_max(mass, MIN_MASS)), ..self }),
    {
        RigidBody { mass: Mass::Value(fp_max(mass, MIN_MASS)), ..self }
    }

    /// Replace the collider.
    pub fn with_collider(self, collider: Collider) -> (r: RigidBody)
        ensures
            r == (RigidBody { collider, ..self }),
    {
        RigidBody { collider, ..self }
    }

    /// Replace the full physics material.
    pub fn with_material(self, material: PhysicsMaterial) -> (r: RigidBody)
        ensures
            r == (RigidBody { material, ..self }),
    {
        RigidBody { material, ..self }
    }

    /// Convenience: set restitution on the material.
    pub fn with_restitution(self, restitution: i64) -> (r: RigidBody)
        ensures
            r == (RigidBody { material: PhysicsMaterial { restitution, ..self.material }, ..self }),
    {
        RigidBody { material: PhysicsMaterial { restitution, ..self.material }, ..self }
    }

    /// Convenience: set friction on the material.
    pub fn with_friction(self, friction: i64) -> (r: RigidBody)
        ensures
            r == (RigidBody { material: PhysicsMaterial { friction, ..self.material }, ..self }),
    {
        RigidBody { material: PhysicsMaterial { friction, ..self.material }, ..self }
    }

    /// Convenience: set drag on the material.
    pub fn with_drag(self, drag: i64) -> (r: RigidBody)
        ensures
            r == (RigidBody { material: PhysicsMaterial { drag, ..self.material }, ..self }),
    {
        RigidBody { material: PhysicsMaterial { drag, ..self.material }, ..self }
    }

    pub fn with_gravity_field(self, gravity_field: GravityField) -> (r: RigidBody)
        ensures
            r == (RigidBody { gravity_field: Some(gravity_field), ..self }),
    {
        RigidBody { gravity_field: Some(gravity_field), ..self }
    }

    /// Add or remove a gravity field on an existing body.
    pub fn set_gravity_field(&mut self, gravity_field: Option<GravityField>)
        ensures
            *final(self) == (RigidBody { gravity_field, ..*old(self) }),
    {
        self.gravity_field = gravity_field;
    }
}

/// Moment of inertia of a collider for a given mass.
pub fn calculate_moment_of_inertia(collider: &Collider, mass: Mass) -> (r: Mass)
    ensures
        r == inertia_of(*collider, mass),
{
    match mass {
        Mass::Infinite => Mass::Infinite,
        Mass::Value(m) => Mass::Value(
            match collider.shape {
                CollisionShape::Circle { radius } => int_div(fp_mul(fp_mul(m, radius), radius), 2),
                CollisionShape::Rectangle { width, height } => int_div(
                    fp_mul(m, fp_add(fp_mul(width, width), fp_mul(height, height))),
                    12,
                ),
            },
        ),
    }
}

} // verus!
