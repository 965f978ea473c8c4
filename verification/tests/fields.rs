//! Gravity-field falloff laws, with exact fixed-point expectations.

use physics2d::fp::FP_ONE;
use physics2d::gravity::{GravityFalloff, GravityField};

fn unit(v: f64) -> i64 {
    (v * FP_ONE as f64) as i64
}

#[test]
fn constant_falloff_ignores_distance() {
    let field = GravityField::new(unit(2.0), unit(100.0), GravityFalloff::Constant);
    assert_eq!(field.calculate_force(unit(2.0), unit(3.0)), unit(6.0));
    assert_eq!(field.calculate_force(unit(50.0), unit(3.0)), unit(6.0));
}

#[test]
fn linear_falloff_divides_by_distance() {
    let field = GravityField::new(unit(2.0), unit(100.0), GravityFalloff::Linear);
    assert_eq!(field.calculate_force(unit(2.0), unit(3.0)), unit(3.0));
    assert_eq!(field.calculate_force(unit(4.0), unit(3.0)), unit(1.5));
}

#[test]
fn inverse_square_falloff_divides_by_squared_distance() {
    let field = GravityField::new(unit(2.0), unit(100.0), GravityFalloff::InverseSquare);
    assert_eq!(field.calculate_force(unit(2.0), unit(3.0)), unit(1.5));
    assert_eq!(field.calculate_force(unit(4.0), unit(3.0)), unit(0.375));
}

#[test]
fn custom_falloff_uses_rate_denominator() {
    // 1 / (1 + d^2 * rate) with rate 1: at d = 2 the denominator is 5
    let field = GravityField::new(unit(2.0), unit(100.0), GravityFalloff::Custom(unit(1.0)));
    assert_eq!(field.calculate_force(unit(2.0), unit(3.0)), unit(1.2));
    // a negative rate that empties the denominator yields no force
    let weird = GravityField::new(unit(2.0), unit(100.0), GravityFalloff::Custom(unit(-1.0)));
    assert_eq!(weird.calculate_force(unit(2.0), unit(3.0)), 0);
}

#[test]
fn linear_and_inverse_square_forces_never_grow_with_distance() {
    for falloff in [GravityFalloff::Linear, GravityFalloff::InverseSquare] {
        let field = GravityField::new(unit(5.0), unit(100.0), falloff);
        let mut last = i64::MAX;
        for d in 1..=40i64 {
            let f = field.calculate_force(unit(d as f64), unit(7.0));
            assert!(f <= last, "force grew between distances {} and {}", d - 1, d);
            last = f;
        }
    }
}
