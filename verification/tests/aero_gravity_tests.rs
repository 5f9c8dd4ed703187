//! Aerodynamic forces/moments and the launch-frame gravity model.

use rocket_sim::aerodynamics::{damping_moment, drag_force, restoring_moment};
use rocket_sim::atmosphere::isa;
use rocket_sim::gravity::{gravity_accel, gravity_force};
use rocket_sim::vec3::Vec3;

#[test]
fn drag_opposes_velocity() {
    let vel = Vec3 { x: 0, y: 0, z: 300_000_000 };
    let atm = isa(0);
    let f = drag_force(&vel, &atm, 300_000, 10_000);
    assert!(f.z < 0, "Drag opposes upward velocity");
    assert_eq!(f.x, 0);
    assert_eq!(f.y, 0);
}

#[test]
fn drag_magnitude_matches_f64() {
    let vel = Vec3 { x: 0, y: 0, z: 300_000_000 };
    let atm = isa(0);
    let f = drag_force(&vel, &atm, 300_000, 10_000);
    // 0.5 * 1.225 * 300^2 * 0.3 * 0.01 = 165.4 N
    let expect = 0.5 * 1.225 * 300.0f64 * 300.0 * 0.3 * 0.01;
    let got = -(f.z as f64) / 1e6;
    assert!((got - expect).abs() / expect < 1e-3, "drag {got} vs {expect}");
}

#[test]
fn no_drag_at_rest() {
    let vel = Vec3 { x: 0, y: 0, z: 0 };
    let atm = isa(0);
    let f = drag_force(&vel, &atm, 300_000, 10_000);
    assert_eq!(f, Vec3 { x: 0, y: 0, z: 0 });
}

#[test]
fn restoring_moment_zero_at_zero_aoa() {
    let vel_body = Vec3 { x: 0, y: 0, z: 300_000_000 };
    let atm = isa(0);
    let m = restoring_moment(&vel_body, 300_000_000, &atm, 10_000, 300_000);
    assert_eq!(m, Vec3 { x: 0, y: 0, z: 0 });
}

#[test]
fn restoring_moment_opposes_sideslip() {
    // velocity tilted toward +y in the body frame: positive pitch AoA
    let vel_body = Vec3 { x: 0, y: 30_000_000, z: 300_000_000 };
    let atm = isa(0);
    let m = restoring_moment(&vel_body, 301_496_000, &atm, 10_000, 300_000);
    assert!(m.x < 0, "stable CP offset gives a restoring (negative) moment, got {}", m.x);
    assert_eq!(m.z, 0);
}

#[test]
fn damping_opposes_rotation() {
    let omega = Vec3 { x: 500_000, y: 0, z: -200_000 };
    let atm = isa(0);
    let m = damping_moment(&omega, 200_000_000, &atm, 10_000);
    assert!(m.x < 0);
    assert!(m.z > 0);
}

#[test]
fn sea_level_gravity() {
    let g = gravity_accel(0);
    assert_eq!(g.z, -9_806_650);
}

#[test]
fn gravity_decreases_with_altitude() {
    let g0 = gravity_accel(0).z.abs();
    let g100k = gravity_accel(100_000_000_000).z.abs();
    assert!(g100k < g0);
}

#[test]
fn gravity_force_scales_with_mass() {
    let f = gravity_force(0, 30_000_000);
    // 30 kg * 9.80665 = 294.1995 N downward
    assert_eq!(f.z, -294_199_500);
}
