//! Shape intersection tests, contact points, penetration depths and
//! collision normals, with exact fixed-point expectations.

use physics2d::collision::{
    calculate_collision_normal, calculate_penetration, check_collision,
    check_collision_with_point, rect_to_circle_normal, Collider,
};
use physics2d::fp::FP_ONE;
use physics2d::vec2::Vec2;

fn unit(v: f64) -> i64 {
    (v * FP_ONE as f64) as i64
}

#[test]
fn rect_rect_overlap_and_contact_center() {
    let a = Collider::new_rect(0, 0, unit(4.0), unit(2.0));
    let b = Collider::new_rect(unit(3.0), 0, unit(4.0), unit(2.0));
    assert!(check_collision(&a, &b));
    let r = check_collision_with_point(&a, &b);
    assert!(r.collided);
    // overlap region spans x in [1, 2], y in [-1, 1]: center (1.5, 0)
    assert_eq!(r.contact_point, Vec2::new(unit(1.5), 0));
    // the smaller axis overlap is 1 (x); y overlap is 2
    assert_eq!(calculate_penetration(&a, &b), unit(1.0));
}

#[test]
fn rect_rect_touching_edges_do_not_collide() {
    let a = Collider::new_rect(0, 0, unit(2.0), unit(2.0));
    let b = Collider::new_rect(unit(2.0), 0, unit(2.0), unit(2.0));
    // strict inequalities: exact edge contact is no overlap
    assert!(!check_collision(&a, &b));
    assert!(!check_collision_with_point(&a, &b).collided);
}

#[test]
fn circle_circle_boundary_counts_as_hit() {
    let a = Collider::new_circle(0, 0, unit(1.0));
    let b = Collider::new_circle(unit(2.0), 0, unit(1.0));
    // center distance exactly equals the radius sum
    assert!(check_collision(&a, &b));
    let r = check_collision_with_point(&a, &b);
    // contact lies one radius along the center line
    assert_eq!(r.contact_point, Vec2::new(unit(1.0), 0));
    assert_eq!(calculate_penetration(&a, &b), 0);
    let apart = Collider::new_circle(unit(2.0) + 1, 0, unit(1.0));
    assert!(!check_collision(&a, &apart));
}

#[test]
fn circle_circle_penetration_is_radius_sum_minus_distance() {
    let a = Collider::new_circle(0, 0, unit(2.0));
    let b = Collider::new_circle(unit(3.0), 0, unit(2.0));
    assert!(check_collision(&a, &b));
    assert_eq!(calculate_penetration(&a, &b), unit(1.0));
}

#[test]
fn rect_circle_clamps_center_to_closest_point() {
    let rect = Collider::new_rect(0, 0, unit(4.0), unit(2.0));
    let circle = Collider::new_circle(unit(3.0), 0, unit(1.5));
    // closest rectangle point to the circle center is (2, 0), distance 1
    assert!(check_collision(&rect, &circle));
    let r = check_collision_with_point(&rect, &circle);
    assert_eq!(r.contact_point, Vec2::new(unit(2.0), 0));
    assert_eq!(calculate_penetration(&rect, &circle), unit(0.5));
    // symmetric pairing by swap
    assert!(check_collision(&circle, &rect));
    assert_eq!(calculate_penetration(&circle, &rect), unit(0.5));
    let far = Collider::new_circle(unit(4.0), 0, unit(1.5));
    assert!(!check_collision(&rect, &far));
}

#[test]
fn rect_to_circle_normal_points_toward_circle() {
    let rect = Collider::new_rect(0, 0, unit(4.0), unit(2.0));
    let circle = Collider::new_circle(unit(3.0), 0, unit(1.5));
    // direction from the clamped point (2, 0) to the center (3, 0): +x
    assert_eq!(rect_to_circle_normal(&rect, &circle), Vec2::new(FP_ONE, 0));
    // a circle centered inside the rectangle gets the fallback up normal
    let inside = Collider::new_circle(0, 0, unit(1.5));
    assert_eq!(rect_to_circle_normal(&rect, &inside), Vec2::new(0, FP_ONE));
}

#[test]
fn collision_normal_orientation_per_pairing() {
    let p1 = Vec2::new(0, 0);
    let p2 = Vec2::new(0, unit(3.0));
    let c1 = Collider::new_circle(0, 0, unit(2.0));
    let c2 = Collider::new_circle(0, unit(3.0), unit(2.0));
    // circle-circle: from body 1 toward body 2
    assert_eq!(calculate_collision_normal(&c1, &c2, p1, p2), Vec2::new(0, FP_ONE));
    // coincident centers fall back to straight up
    assert_eq!(calculate_collision_normal(&c1, &c1, p1, p1), Vec2::new(0, FP_ONE));
    // rectangle-circle: always from the rectangle toward the circle,
    // regardless of argument order
    let rect = Collider::new_rect(0, 0, unit(4.0), unit(2.0));
    let circle = Collider::new_circle(unit(3.0), 0, unit(1.5));
    assert_eq!(
        calculate_collision_normal(&rect, &circle, p1, p2),
        Vec2::new(FP_ONE, 0)
    );
    assert_eq!(
        calculate_collision_normal(&circle, &rect, p2, p1),
        Vec2::new(FP_ONE, 0)
    );
}

#[test]
fn unit_direction_is_exact_on_a_345_triangle() {
    let a = Vec2::new(0, 0);
    let b = Vec2::new(unit(3.0), unit(4.0));
    let n = physics2d::vec2::unit_toward(a, b);
    assert_eq!(n, Vec2::new(unit(0.6), unit(0.8)));
    assert_eq!(physics2d::vec2::dist(a, b), unit(5.0));
}
