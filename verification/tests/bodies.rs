//! Rigid-body construction, builders, force and impulse application,
//! sleep bookkeeping and kinetic energy.

use physics2d::collision::Collider;
use physics2d::fp::FP_ONE;
use physics2d::rigid_body::{BodyId, BodyType, Mass, RigidBody, MIN_MASS};
use physics2d::vec2::Vec2;

fn unit(v: f64) -> i64 {
    (v * FP_ONE as f64) as i64
}

#[test]
fn dynamic_mass_is_clamped_and_inertia_follows_the_disk_formula() {
    let c = Collider::new_circle(0, 0, unit(20.0));
    let tiny = RigidBody::new_dynamic(BodyId(0), Vec2::new(0, 0), c, 0);
    assert_eq!(tiny.mass, Mass::Value(MIN_MASS));
    let ball = RigidBody::new_dynamic(BodyId(0), Vec2::new(0, 0), c, unit(1200.0));
    assert_eq!(ball.mass, Mass::Value(unit(1200.0)));
    // I = m * r^2 / 2 = 1200 * 400 / 2 = 240000
    assert_eq!(ball.moment_of_inertia, Mass::Value(unit(240_000.0)));
    assert_eq!(ball.body_type, BodyType::Dynamic);
    assert!(!ball.is_sleeping);
}

#[test]
fn rectangle_inertia_follows_the_plate_formula() {
    let c = Collider::new_rect(0, 0, unit(2.0), unit(4.0));
    let plate = RigidBody::new_dynamic(BodyId(0), Vec2::new(0, 0), c, unit(6.0));
    // I = m * (w^2 + h^2) / 12 = 6 * 20 / 12 = 10
    assert_eq!(plate.moment_of_inertia, Mass::Value(unit(10.0)));
}

#[test]
fn static_and_kinematic_bodies_have_infinite_mass() {
    let c = Collider::new_rect(0, 0, unit(2.0), unit(2.0));
    let wall = RigidBody::new_static(BodyId(0), Vec2::new(0, 0), c);
    assert_eq!(wall.mass, Mass::Infinite);
    assert!(wall.is_sleeping);
    let lift = RigidBody::new_kinematic(BodyId(0), Vec2::new(0, 0), c);
    assert_eq!(lift.mass, Mass::Infinite);
    assert!(!lift.is_sleeping);
    assert_eq!(wall.kinetic_energy(), 0);
}

#[test]
fn impulse_scales_by_inverse_mass_and_wakes_the_body() {
    let c = Collider::new_circle(0, 0, unit(1.0));
    let mut body = RigidBody::new_dynamic(BodyId(0), Vec2::new(0, 0), c, unit(2.0));
    body.is_sleeping = true;
    body.sleep_timer = unit(0.7);
    body.apply_impulse(Vec2::new(unit(1.0), 0));
    assert_eq!(body.velocity, Vec2::new(unit(0.5), 0));
    assert!(!body.is_sleeping);
    assert_eq!(body.sleep_timer, 0);
}

#[test]
fn forces_and_torques_are_no_ops_on_non_dynamic_bodies() {
    let c = Collider::new_rect(0, 0, unit(2.0), unit(2.0));
    let mut wall = RigidBody::new_static(BodyId(0), Vec2::new(0, 0), c);
    let before = wall;
    wall.apply_force(Vec2::new(unit(10.0), 0));
    wall.apply_impulse(Vec2::new(unit(10.0), 0));
    wall.apply_torque(unit(3.0));
    wall.apply_angular_impulse(unit(3.0));
    assert_eq!(wall, before);
    // kinematic bodies do accept a velocity, but stay force-immune
    let mut lift = RigidBody::new_kinematic(BodyId(0), Vec2::new(0, 0), c);
    lift.set_velocity(Vec2::new(0, unit(1.0)));
    assert_eq!(lift.velocity, Vec2::new(0, unit(1.0)));
    lift.apply_force(Vec2::new(unit(10.0), 0));
    assert_eq!(lift.force_accumulator, Vec2::new(0, 0));
}

#[test]
fn angular_impulse_scales_by_inverse_inertia() {
    let c = Collider::new_circle(0, 0, unit(2.0));
    // I = 5 * 4 / 2 = 10
    let mut body = RigidBody::new_dynamic(BodyId(0), Vec2::new(0, 0), c, unit(5.0));
    body.apply_angular_impulse(unit(20.0));
    assert_eq!(body.angular_velocity, unit(2.0));
}

#[test]
fn should_sleep_needs_low_speed_for_long_enough() {
    let c = Collider::new_circle(0, 0, unit(1.0));
    let mut body = RigidBody::new_dynamic(BodyId(0), Vec2::new(0, 0), c, unit(1.0));
    body.velocity = Vec2::new(unit(0.05), 0);
    body.sleep_timer = unit(1.5);
    assert!(body.should_sleep());
    body.velocity = Vec2::new(unit(0.2), 0);
    assert!(!body.should_sleep());
    body.velocity = Vec2::new(unit(0.05), 0);
    body.sleep_timer = unit(0.5);
    assert!(!body.should_sleep());
}

#[test]
fn kinetic_energy_is_half_m_v_squared() {
    let c = Collider::new_circle(0, 0, unit(1.0));
    let body = RigidBody::new_dynamic(BodyId(0), Vec2::new(0, 0), c, unit(2.0))
        .with_velocity(Vec2::new(unit(3.0), unit(4.0)));
    assert_eq!(body.kinetic_energy(), unit(25.0));
}

#[test]
fn builders_set_what_they_name() {
    let c = Collider::new_circle(0, 0, unit(1.0));
    let c2 = Collider::new_rect(0, 0, unit(2.0), unit(2.0));
    let field = physics2d::gravity::GravityField::new(
        unit(9.0),
        unit(50.0),
        physics2d::gravity::GravityFalloff::Linear,
    );
    let body = RigidBody::new_dynamic(BodyId(0), Vec2::new(0, 0), c, unit(1.0))
        .with_position(Vec2::new(unit(1.0), unit(2.0)))
        .with_velocity(Vec2::new(unit(3.0), 0))
        .with_acceleration(Vec2::new(0, unit(-1.0)))
        .with_mass(unit(4.0))
        .with_collider(c2)
        .with_restitution(unit(0.25))
        .with_friction(unit(0.75))
        .with_drag(unit(0.1))
        .with_gravity_field(field)
        .with_bounds_behavior(physics2d::world_bounds::BoundsBehavior::Wrap);
    assert_eq!(body.position, Vec2::new(unit(1.0), unit(2.0)));
    assert_eq!(body.velocity, Vec2::new(unit(3.0), 0));
    assert_eq!(body.acceleration, Vec2::new(0, unit(-1.0)));
    assert_eq!(body.mass, Mass::Value(unit(4.0)));
    assert_eq!(body.collider, c2);
    assert_eq!(body.material.restitution, unit(0.25));
    assert_eq!(body.material.friction, unit(0.75));
    assert_eq!(body.material.drag, unit(0.1));
    assert_eq!(body.gravity_field, Some(field));
    assert_eq!(
        body.bounds_behavior,
        Some(physics2d::world_bounds::BoundsBehavior::Wrap)
    );
}
