//! PID behaviour, the pitch program, and the TVC controller.

use rocket_sim::guidance::guidance_pitch;
use rocket_sim::mission::Mission;
use rocket_sim::pid::Pid;
use rocket_sim::quat::Quat;
use rocket_sim::state::State;
use rocket_sim::trig::HALF_PI_FX;
use rocket_sim::tvc::TvcController;
use rocket_sim::vec3::Vec3;

fn plain_state(time: i64, alt: i64, vz: i64) -> State {
    State {
        time,
        pos: Vec3 { x: 0, y: 0, z: alt },
        vel: Vec3 { x: 0, y: 0, z: vz },
        quat: Quat { w: 1_000_000_000, x: 0, y: 0, z: 0 },
        omega: Vec3 { x: 0, y: 0, z: 0 },
        mass: 30_000_000,
        stage_idx: 0,
    }
}

fn empty_mission() -> Mission {
    Mission { name: "T".to_string(), stages: vec![] }
}

#[test]
fn pid_proportional() {
    let mut pid = Pid::new(1_000_000, 0, 0);
    let out = pid.update(500_000, 10_000);
    assert_eq!(out, 500_000, "Pure P outputs exactly Kp * error");
}

#[test]
fn pid_integral_accumulates() {
    let mut pid = Pid::new(0, 1_000_000, 0);
    pid.update(1_000_000, 100_000);
    let out = pid.update(1_000_000, 100_000);
    assert_eq!(out, 200_000, "Integral accumulates error * dt");
}

#[test]
fn pid_integral_clamps() {
    let mut pid = Pid::new(0, 1_000_000, 0);
    // error 10 for 10 x 0.1 s would integrate to 10; it clamps at 1
    let mut out = 0;
    for _ in 0..20 {
        out = pid.update(10_000_000, 100_000);
    }
    assert_eq!(out, 1_000_000, "Integral term clamps at 1.0");
    let mut neg = Pid::new(0, 1_000_000, 0);
    let mut out2 = 0;
    for _ in 0..20 {
        out2 = neg.update(-10_000_000, 100_000);
    }
    assert_eq!(out2, -1_000_000, "Integral term clamps at -1.0");
}

#[test]
fn pid_derivative_on_delta() {
    let mut pid = Pid::new(0, 0, 1_000_000);
    pid.update(0, 100_000);
    let out = pid.update(200_000, 100_000);
    // d = (0.2 - 0.0) / 0.1 = 2.0
    assert_eq!(out, 2_000_000);
}

#[test]
fn pid_reset_clears_state() {
    let mut pid = Pid::new(1_000_000, 1_000_000, 0);
    pid.update(1_000_000, 100_000);
    pid.reset();
    let out = pid.update(0, 100_000);
    assert_eq!(out, 0);
}

#[test]
fn guidance_vertical_at_start() {
    let s = plain_state(0, 0, 0);
    let m = empty_mission();
    let pitch = guidance_pitch(&s, &m);
    assert_eq!(pitch, HALF_PI_FX, "Vertical at t=0");
}

#[test]
fn guidance_pitchover_midpoint() {
    let s = plain_state(8_500_000, 1_000_000_000, 200_000_000);
    let m = empty_mission();
    let pitch = guidance_pitch(&s, &m);
    assert!(pitch < HALF_PI_FX && pitch > 785_398, "between 45 and 90 deg");
}

#[test]
fn guidance_gravity_turn_follows_velocity() {
    // past pitchover, fast, climbing at 30 degrees
    let vz = 150_000_000i64;
    let vx = 259_807_621i64; // 300 m/s at 30 deg
    let s = State {
        time: 20_000_000,
        pos: Vec3 { x: 0, y: 0, z: 5_000_000_000 },
        vel: Vec3 { x: vx, y: 0, z: vz },
        quat: Quat { w: 1_000_000_000, x: 0, y: 0, z: 0 },
        omega: Vec3 { x: 0, y: 0, z: 0 },
        mass: 25_000_000,
        stage_idx: 0,
    };
    let m = empty_mission();
    let pitch = guidance_pitch(&s, &m) as f64 / 1e6;
    assert!((pitch - 0.5236).abs() < 0.01, "flight path angle 30 deg, got {pitch}");
}

#[test]
fn tvc_commands_pitch_down_during_pitchover() {
    // vertical attitude at t = 8.5 s: guidance wants less pitch, so the
    // pitch-axis command must be negative
    let mut tvc = TvcController::new();
    let s = plain_state(8_500_000, 1_000_000_000, 200_000_000);
    let m = empty_mission();
    let cmd = tvc.update(&s, &m, 5_000);
    assert!(cmd.gimbal_y < 0, "expected nose-down command, got {}", cmd.gimbal_y);
    assert_eq!(cmd.gimbal_z, 0, "no yaw error for a level attitude");
}

#[test]
fn tvc_reset_clears_accumulators() {
    let mut tvc = TvcController::new();
    let s = plain_state(8_500_000, 1_000_000_000, 200_000_000);
    let m = empty_mission();
    tvc.update(&s, &m, 5_000);
    tvc.reset();
    assert_eq!(tvc.pitch_pid.integral, 0);
    assert_eq!(tvc.pitch_pid.prev_error, 0);
}
