//! Body management: insertion, lookup, removal, sweeping and statistics.

use physics2d::collision::Collider;
use physics2d::fp::FP_ONE;
use physics2d::physics_world::PhysicsWorld;
use physics2d::rigid_body::{BodyId, Mass, RigidBody};
use physics2d::vec2::Vec2;

fn unit(v: f64) -> i64 {
    (v * FP_ONE as f64) as i64
}

#[test]
fn ids_are_assigned_monotonically_and_never_reused() {
    let mut world = PhysicsWorld::new();
    let c = Collider::new_circle(0, 0, unit(1.0));
    let a = world.add_body(RigidBody::new_dynamic(BodyId(0), Vec2::new(0, 0), c, unit(1.0)));
    let b = world.add_body(RigidBody::new_dynamic(BodyId(0), Vec2::new(0, 0), c, unit(1.0)));
    assert_eq!(a, BodyId(0));
    assert_eq!(b, BodyId(1));
    world.remove_body(a);
    let d = world.add_body(RigidBody::new_dynamic(BodyId(0), Vec2::new(0, 0), c, unit(1.0)));
    assert_eq!(d, BodyId(2));
}

#[test]
fn add_then_remove_n_bodies_leaves_world_empty_with_data_intact() {
    let mut world = PhysicsWorld::new();
    let n = 7i64;
    let mut ids = Vec::new();
    let mut inserted = Vec::new();
    for k in 0..n {
        let c = Collider::new_circle(unit(k as f64), 0, unit(0.5));
        let body = RigidBody::new_dynamic(BodyId(0), Vec2::new(unit(k as f64), unit(2.0)), c, unit(1.0 + k as f64))
            .with_velocity(Vec2::new(unit(0.25), unit(-0.5)))
            .with_restitution(unit(0.75));
        inserted.push(body);
        ids.push(world.add_body(body));
    }
    assert_eq!(world.bodies().len(), n as usize);
    for (k, id) in ids.iter().enumerate() {
        let removed = world.remove_body(*id).expect("body must be found by its id");
        // identical to what was inserted, with the assigned id
        let mut expected = inserted[k];
        expected.id = *id;
        assert_eq!(removed, expected);
    }
    assert!(world.bodies().is_empty());
}

#[test]
fn remove_unknown_id_returns_none_and_changes_nothing() {
    let mut world = PhysicsWorld::new();
    let c = Collider::new_rect(0, 0, unit(2.0), unit(2.0));
    world.add_body(RigidBody::new_static(BodyId(0), Vec2::new(0, 0), c));
    assert!(world.remove_body(BodyId(55)).is_none());
    assert_eq!(world.bodies().len(), 1);
}

#[test]
fn remove_marked_bodies_partitions_in_order() {
    let mut world = PhysicsWorld::new();
    let c = Collider::new_circle(0, 0, unit(0.5));
    for k in 0..6i64 {
        let mut body = RigidBody::new_dynamic(BodyId(0), Vec2::new(unit(k as f64 * 10.0), 0), c, unit(1.0));
        if k % 2 == 0 {
            body.mark_for_deletion();
        }
        world.add_body(body);
    }
    let removed = world.remove_marked_bodies();
    let kept = world.bodies();
    assert_eq!(removed.len(), 3);
    assert_eq!(kept.len(), 3);
    assert_eq!(
        removed.iter().map(|b| b.id.0).collect::<Vec<_>>(),
        vec![0, 2, 4]
    );
    assert_eq!(kept.iter().map(|b| b.id.0).collect::<Vec<_>>(), vec![1, 3, 5]);
    assert!(removed.iter().all(|b| b.marked_for_deletion));
}

#[test]
fn get_body_and_get_body_mut_find_by_id() {
    let mut world = PhysicsWorld::new();
    let c = Collider::new_circle(0, 0, unit(0.5));
    let id = world.add_body(RigidBody::new_dynamic(BodyId(0), Vec2::new(unit(3.0), 0), c, unit(1.0)));
    assert!(world.get_body(BodyId(99)).is_none());
    assert_eq!(world.get_body(id).unwrap().position, Vec2::new(unit(3.0), 0));
    world
        .get_body_mut(id)
        .unwrap()
        .set_position(Vec2::new(unit(4.0), unit(5.0)));
    let body = world.get_body(id).unwrap();
    assert_eq!(body.position, Vec2::new(unit(4.0), unit(5.0)));
    // set_position keeps the collider in sync
    assert_eq!(body.collider.position, Vec2::new(unit(4.0), unit(5.0)));
}

#[test]
fn stats_count_bodies_and_energy() {
    let mut world = PhysicsWorld::new();
    let c = Collider::new_circle(0, 0, unit(0.5));
    // kinetic energy m * |v|^2 / 2 = 2.0 * 25.0 / 2 = 25.0
    let moving = RigidBody::new_dynamic(BodyId(0), Vec2::new(0, 0), c, unit(2.0))
        .with_velocity(Vec2::new(unit(3.0), unit(4.0)));
    world.add_body(moving);
    let platform = Collider::new_rect(0, unit(-5.0), unit(10.0), unit(1.0));
    world.add_body(RigidBody::new_static(BodyId(0), Vec2::new(0, unit(-5.0)), platform));
    let stats = world.stats();
    assert_eq!(stats.total_bodies, 2);
    // static bodies are born sleeping
    assert_eq!(stats.sleeping_bodies, 1);
    assert_eq!(stats.active_bodies, 1);
    assert_eq!(stats.total_kinetic_energy, unit(25.0));
    assert_eq!(
        world.get_body(BodyId(0)).unwrap().mass,
        Mass::Value(unit(2.0))
    );
}

#[test]
fn collision_event_log_is_drained_by_caller() {
    let mut world = PhysicsWorld::new();
    let c = Collider::new_circle(0, 0, unit(1.0));
    world.add_body(RigidBody::new_dynamic(BodyId(0), Vec2::new(0, 0), c, unit(1.0)));
    let c2 = Collider::new_circle(unit(1.0), 0, unit(1.0));
    world.add_body(RigidBody::new_dynamic(BodyId(0), Vec2::new(unit(1.0), 0), c2, unit(1.0)));
    world.step(unit(0.01));
    assert_eq!(world.get_collision_events().len(), 1);
    let ev = world.get_collision_events()[0];
    assert_eq!(ev.body1_id, BodyId(0));
    assert_eq!(ev.body2_id, BodyId(1));
    // circles at distance 1 with radius 1 each: the normal points from
    // the first toward the second, the contact sits one radius along it
    assert_eq!(ev.normal, Vec2::new(FP_ONE, 0));
    assert_eq!(ev.contact_point, Vec2::new(unit(1.0), 0));
    world.clear_collision_events();
    assert!(world.get_collision_events().is_empty());
}

#[test]
fn changing_gravity_wakes_sleeping_dynamic_bodies() {
    let mut world = PhysicsWorld::new();
    let c = Collider::new_circle(0, 0, unit(1.0));
    let id = world.add_body(RigidBody::new_dynamic(BodyId(0), Vec2::new(0, 0), c, unit(1.0)));
    for _ in 0..3 {
        world.step(unit(0.5));
    }
    assert!(world.get_body(id).unwrap().is_sleeping);
    world.set_global_gravity(Vec2::new(0, unit(-9.8)));
    assert!(!world.get_body(id).unwrap().is_sleeping);
}
