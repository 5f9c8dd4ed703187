//! The force/torque model at characteristic states.

use rocket_sim::mission::Mission;
use rocket_sim::quat::Quat;
use rocket_sim::sixdof::derivatives;
use rocket_sim::stage::Stage;
use rocket_sim::state::{GncCommand, State};
use rocket_sim::vec3::Vec3;

fn test_mission() -> Mission {
    Mission {
        name: "Test".to_string(),
        stages: vec![Stage {
            name: "S1".to_string(),
            dry_mass: 20_000_000,
            propellant_mass: 10_000_000,
            thrust: 2_000_000_000,
            isp: 220_000_000,
            cd: 300_000,
            area: 8_000,
            inertia: Vec3 { x: 5_000_000, y: 5_000_000, z: 500_000 },
            nozzle_offset: 1_000_000,
            cp_offset: 300_000,
            tvc_max: 100_000,
        }],
    }
}

fn pad_state(mission: &Mission) -> State {
    State {
        time: 0,
        pos: Vec3 { x: 0, y: 0, z: 0 },
        vel: Vec3 { x: 0, y: 0, z: 0 },
        quat: Quat { w: 1_000_000_000, x: 0, y: 0, z: 0 },
        omega: Vec3 { x: 0, y: 0, z: 0 },
        mass: mission.total_mass(),
        stage_idx: 0,
    }
}

#[test]
fn net_upward_accel_on_pad() {
    let m = test_mission();
    let s = pad_state(&m);
    let d = derivatives(&s, &m, &GncCommand::default());
    assert!(d.dvel.z > 0, "TWR > 1 gives net upward, got {}", d.dvel.z);
}

#[test]
fn tvc_creates_torque() {
    let m = test_mission();
    let s = pad_state(&m);
    let cmd = GncCommand { gimbal_y: 50_000, gimbal_z: 0 };
    let d = derivatives(&s, &m, &cmd);
    assert!(d.domega.x.abs() > 1, "TVC should create pitch torque");
}

#[test]
fn no_thrust_after_burnout() {
    let m = test_mission();
    let s = State {
        time: 100_000_000,
        pos: Vec3 { x: 0, y: 0, z: 5_000_000_000 },
        vel: Vec3 { x: 0, y: 0, z: 200_000_000 },
        quat: Quat { w: 1_000_000_000, x: 0, y: 0, z: 0 },
        omega: Vec3 { x: 0, y: 0, z: 0 },
        mass: m.stages[0].dry_mass,
        stage_idx: 0,
    };
    let d = derivatives(&s, &m, &GncCommand::default());
    assert!(d.dvel.z < 0, "Only gravity + drag after burnout");
    assert_eq!(d.dmass, 0);
}

#[test]
fn quat_deriv_zero_at_rest() {
    let m = test_mission();
    let s = pad_state(&m);
    let d = derivatives(&s, &m, &GncCommand::default());
    assert_eq!(d.dquat.w, 0);
    assert_eq!(d.dquat.x, 0);
    assert_eq!(d.dquat.y, 0);
    assert_eq!(d.dquat.z, 0);
}

#[test]
fn mass_flow_during_burn() {
    let m = test_mission();
    let s = pad_state(&m);
    let d = derivatives(&s, &m, &GncCommand::default());
    // mdot = 2000 / (220 * 9.80665) = 0.926995 kg/s
    let expect = -(2000.0 / (220.0 * 9.80665));
    let got = d.dmass as f64 / 1e6;
    assert!((got - expect).abs() < 1e-4, "dmass {got}");
}

#[test]
fn free_fall_past_last_stage() {
    let m = test_mission();
    let s = State {
        stage_idx: 1,
        ..pad_state(&m)
    };
    let d = derivatives(&s, &m, &GncCommand::default());
    assert_eq!(d.dvel.x, 0);
    assert_eq!(d.dvel.y, 0);
    assert_eq!(d.dvel.z, -9_806_650);
    assert_eq!(d.dmass, 0);
}
