//! Whole-simulation behaviour: integration, sleeping and waking,
//! momentum exchange, and the drop-onto-a-platform scenario.

use physics2d::collision::Collider;
use physics2d::fp::FP_ONE;
use physics2d::physics_world::PhysicsWorld;
use physics2d::rigid_body::{BodyId, RigidBody};
use physics2d::vec2::Vec2;

fn unit(v: f64) -> i64 {
    (v * FP_ONE as f64) as i64
}

#[test]
fn non_positive_dt_is_a_no_op() {
    let mut world = PhysicsWorld::new();
    world.set_global_gravity(Vec2::new(0, unit(-10.0)));
    let c = Collider::new_circle(0, 0, unit(1.0));
    let id = world.add_body(RigidBody::new_dynamic(BodyId(0), Vec2::new(0, unit(5.0)), c, unit(1.0)));
    world.step(0);
    world.step(unit(-1.0));
    let body = world.get_body(id).unwrap();
    assert_eq!(body.position, Vec2::new(0, unit(5.0)));
    assert_eq!(body.velocity, Vec2::new(0, 0));
}

#[test]
fn semi_implicit_euler_free_fall_is_exact() {
    let mut world = PhysicsWorld::new();
    world.set_global_gravity(Vec2::new(0, unit(-10.0)));
    let c = Collider::new_circle(0, 0, unit(1.0));
    let id = world.add_body(RigidBody::new_dynamic(BodyId(0), Vec2::new(0, 0), c, unit(1.0)));
    world.step(unit(1.0));
    {
        let body = world.get_body(id).unwrap();
        // v = g * dt; x = v * dt (velocity first, then position)
        assert_eq!(body.velocity, Vec2::new(0, unit(-10.0)));
        assert_eq!(body.position, Vec2::new(0, unit(-10.0)));
        // the collider follows the body
        assert_eq!(body.collider.position, Vec2::new(0, unit(-10.0)));
        // accumulators are cleared after integration
        assert_eq!(body.force_accumulator, Vec2::new(0, 0));
    }
    world.step(unit(1.0));
    let body = world.get_body(id).unwrap();
    assert_eq!(body.velocity, Vec2::new(0, unit(-20.0)));
    assert_eq!(body.position, Vec2::new(0, unit(-30.0)));
}

#[test]
fn kinematic_bodies_follow_velocity_and_ignore_gravity() {
    let mut world = PhysicsWorld::new();
    world.set_global_gravity(Vec2::new(0, unit(-10.0)));
    let c = Collider::new_rect(0, 0, unit(2.0), unit(1.0));
    let id = world.add_body(RigidBody::new_kinematic(BodyId(0), Vec2::new(0, 0), c));
    world.get_body_mut(id).unwrap().set_velocity(Vec2::new(unit(2.0), 0));
    world.step(unit(1.0));
    let body = world.get_body(id).unwrap();
    assert_eq!(body.position, Vec2::new(unit(2.0), 0));
    assert_eq!(body.velocity, Vec2::new(unit(2.0), 0));
}

#[test]
fn gravity_field_attracts_nearby_dynamic_bodies() {
    let mut world = PhysicsWorld::new();
    let c = Collider::new_circle(0, 0, unit(1.0));
    // a heavy attractor with a constant-falloff field, 10 units away
    let attractor = RigidBody::new_dynamic(BodyId(0), Vec2::new(unit(10.0), 0), c, unit(100.0))
        .with_gravity_field(physics2d::gravity::GravityField::new(
            unit(3.0),
            unit(50.0),
            physics2d::gravity::GravityFalloff::Constant,
        ));
    world.add_body(attractor);
    let probe = world.add_body(RigidBody::new_dynamic(BodyId(0), Vec2::new(0, 0), c, unit(2.0)));
    world.step(unit(0.5));
    let body = world.get_body(probe).unwrap();
    // force = strength * mass = 6 toward +x, so v = (6 / 2) * 0.5 = 1.5
    assert_eq!(body.velocity, Vec2::new(unit(1.5), 0));
}

#[test]
fn splitting_a_step_into_substeps_changes_the_integration_exactly() {
    let mut world = PhysicsWorld::new();
    world.set_global_gravity(Vec2::new(0, unit(-10.0)));
    world.set_substeps(2);
    let c = Collider::new_circle(0, 0, unit(1.0));
    let id = world.add_body(RigidBody::new_dynamic(BodyId(0), Vec2::new(0, 0), c, unit(1.0)));
    world.step(unit(1.0));
    let body = world.get_body(id).unwrap();
    // two half-second sub-steps: v -5 then -10; x -2.5 then -7.5
    assert_eq!(body.velocity, Vec2::new(0, unit(-10.0)));
    assert_eq!(body.position, Vec2::new(0, unit(-7.5)));
}

#[test]
fn linear_drag_damps_velocity_and_spin_exactly() {
    let mut world = PhysicsWorld::new();
    let c = Collider::new_circle(0, 0, unit(2.0));
    let body = RigidBody::new_dynamic(BodyId(0), Vec2::new(0, 0), c, unit(1.0))
        .with_velocity(Vec2::new(unit(10.0), 0))
        .with_drag(unit(0.5));
    let id = world.add_body(body);
    world.get_body_mut(id).unwrap().angular_velocity = unit(2.0);
    world.step(unit(0.1));
    let body = world.get_body(id).unwrap();
    // drag force -v * drag * m = -5, so v = 10 - 5 * 0.1 = 9.5
    assert_eq!(body.velocity, Vec2::new(unit(9.5), 0));
    assert_eq!(body.position, Vec2::new(unit(0.95), 0));
    // angular drag: w = 2 * (1 - 0.5 * 0.1) = 1.9
    assert_eq!(body.angular_velocity, unit(1.9));
}

#[test]
fn gravity_field_has_no_pull_beyond_its_radius() {
    let mut world = PhysicsWorld::new();
    let c = Collider::new_circle(0, 0, unit(1.0));
    let attractor = RigidBody::new_dynamic(BodyId(0), Vec2::new(unit(30.0), 0), c, unit(100.0))
        .with_gravity_field(physics2d::gravity::GravityField::new(
            unit(3.0),
            unit(20.0),
            physics2d::gravity::GravityFalloff::Constant,
        ));
    world.add_body(attractor);
    // the probe sits 30 units away, outside the 20-unit field radius
    let probe = world.add_body(RigidBody::new_dynamic(BodyId(0), Vec2::new(0, 0), c, unit(2.0)));
    world.step(unit(0.5));
    assert_eq!(world.get_body(probe).unwrap().velocity, Vec2::new(0, 0));
}

#[test]
fn idle_body_sleeps_and_wakes_on_impulse() {
    let mut world = PhysicsWorld::new();
    let c = Collider::new_circle(0, 0, unit(1.0));
    let id = world.add_body(RigidBody::new_dynamic(BodyId(0), Vec2::new(0, 0), c, unit(1.0)));
    // three half-second steps at zero speed push the sleep timer past 1 s
    world.step(unit(0.5));
    world.step(unit(0.5));
    assert_eq!(world.stats().sleeping_bodies, 0);
    world.step(unit(0.5));
    assert_eq!(world.stats().sleeping_bodies, 1);
    assert!(world.get_body(id).unwrap().is_sleeping);

    // a sleeping body with no applied force does not change at all
    let before = *world.get_body(id).unwrap();
    world.step(unit(0.5));
    assert_eq!(*world.get_body(id).unwrap(), before);

    // an impulse wakes it within the same call
    world.get_body_mut(id).unwrap().apply_impulse(Vec2::new(unit(2.0), 0));
    let body = world.get_body(id).unwrap();
    assert!(!body.is_sleeping);
    assert_eq!(body.velocity, Vec2::new(unit(2.0), 0));
    assert_eq!(world.stats().sleeping_bodies, 0);
}

#[test]
fn sleeping_disabled_keeps_bodies_awake() {
    let mut world = PhysicsWorld::new();
    world.set_sleep_enabled(false);
    let c = Collider::new_circle(0, 0, unit(1.0));
    world.add_body(RigidBody::new_dynamic(BodyId(0), Vec2::new(0, 0), c, unit(1.0)));
    for _ in 0..5 {
        world.step(unit(0.5));
    }
    assert_eq!(world.stats().sleeping_bodies, 0);
}

#[test]
fn equal_mass_head_on_circles_exchange_velocities_exactly() {
    let mut world = PhysicsWorld::new();
    let ca = Collider::new_circle(unit(-0.4), 0, unit(0.5));
    let cb = Collider::new_circle(unit(0.4), 0, unit(0.5));
    let a = world.add_body(
        RigidBody::new_dynamic(BodyId(0), Vec2::new(unit(-0.4), 0), ca, unit(1.0))
            .with_velocity(Vec2::new(unit(1.0), 0))
            .with_restitution(FP_ONE),
    );
    let b = world.add_body(
        RigidBody::new_dynamic(BodyId(0), Vec2::new(unit(0.4), 0), cb, unit(1.0))
            .with_velocity(Vec2::new(unit(-1.0), 0))
            .with_restitution(FP_ONE),
    );
    let energy_before = world.stats().total_kinetic_energy;
    world.step(unit(0.001));
    let va = world.get_body(a).unwrap().velocity;
    let vb = world.get_body(b).unwrap().velocity;
    // velocities are exchanged exactly, and kinetic energy is conserved
    assert_eq!(va, Vec2::new(unit(-1.0), 0));
    assert_eq!(vb, Vec2::new(unit(1.0), 0));
    assert_eq!(world.stats().total_kinetic_energy, energy_before);
}

#[test]
fn friction_has_a_deadzone_and_slows_faster_slides() {
    // two identical balls dropped onto a long platform, one sliding at
    // 1.0 units/s (inside the tangential deadzone), one at 4.0 units/s
    let run = |vx: i64| -> i64 {
        let mut world = PhysicsWorld::new();
        world.set_global_gravity(Vec2::new(0, unit(-100.0)));
        world.set_substeps(4);
        let platform = Collider::new_rect(0, unit(-10.0), unit(400.0), unit(4.0));
        world.add_body(RigidBody::new_static(BodyId(0), Vec2::new(0, unit(-10.0)), platform));
        let c = Collider::new_circle(0, unit(0.0), unit(1.0));
        let ball = world.add_body(
            RigidBody::new_dynamic(BodyId(0), Vec2::new(0, 0), c, unit(1.0))
                .with_velocity(Vec2::new(vx, 0))
                .with_friction(unit(0.8)),
        );
        for _ in 0..120 {
            world.step(unit(1.0) / 60);
        }
        world.get_body(ball).unwrap().velocity.x
    };
    // inside the deadzone the horizontal velocity is untouched, exactly
    assert_eq!(run(unit(1.0)), unit(1.0));
    // outside it, friction bleeds horizontal speed without reversing it
    let fast = run(unit(4.0));
    assert!(fast < unit(4.0));
    assert!(fast >= 0);
}

#[test]
fn dropped_ball_bounces_on_the_platform_and_settles_on_top() {
    let mut world = PhysicsWorld::new();
    world.set_global_gravity(Vec2::new(0, unit(-685.0)));
    world.set_substeps(8);

    let platform_collider = Collider::new_rect(0, unit(-170.0), unit(400.0), unit(50.0));
    let platform = world.add_body(
        RigidBody::new_static(BodyId(0), Vec2::new(0, unit(-170.0)), platform_collider)
            .with_restitution(unit(0.2)),
    );
    let platform_before = *world.get_body(platform).unwrap();

    let ball_collider = Collider::new_circle(0, unit(300.0), unit(20.0));
    let ball = world.add_body(
        RigidBody::new_dynamic(BodyId(0), Vec2::new(0, unit(300.0)), ball_collider, unit(1200.0))
            .with_restitution(unit(0.8))
            .with_friction(unit(0.2)),
    );

    // 5 seconds at 60 fps: settled well past the ~3 s mark
    let dt = unit(1.0) / 60;
    let mut saw_downward = false;
    let mut reversed = false;
    for _ in 0..300 {
        world.step(dt);
        let body = world.get_body(ball).unwrap();
        let vy = body.velocity.y;
        if vy < 0 {
            saw_downward = true;
        }
        if saw_downward && vy > 0 {
            reversed = true;
        }
        // the ball never tunnels into the platform: its center stays
        // above the platform's top face
        assert!(body.position.y >= unit(-145.0), "ball sank to {}", body.position.y);
    }
    // the ball bounced at least once
    assert!(reversed);
    // final resting height: platform top (-145) + radius (20), within one
    // unit of slop
    let final_y = world.get_body(ball).unwrap().position.y;
    assert!(
        (final_y - unit(-125.0)).abs() <= unit(1.0),
        "final y was {}",
        final_y
    );
    // the static platform never moved in any way
    assert_eq!(*world.get_body(platform).unwrap(), platform_before);
}
