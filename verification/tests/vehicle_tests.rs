//! Stage and mission records: builder round-trips, derived quantities,
//! presets, and the summary statistics.

use rocket_sim::mission::{Mission, MissionBuilder};
use rocket_sim::presets::pathfinder;
use rocket_sim::quat::Quat;
use rocket_sim::stage::{Stage, StageBuilder};
use rocket_sim::state::State;
use rocket_sim::summary::FlightSummary;
use rocket_sim::vec3::Vec3;

#[test]
fn stage_builder_round_trip() {
    let st = StageBuilder::new("X".to_string())
        .dry_mass(21_500_000)
        .propellant_mass(9_250_000)
        .thrust(1_999_000_000)
        .isp(231_000_000)
        .cd(310_000)
        .area(8_500)
        .inertia(Vec3 { x: 5_100_000, y: 5_200_000, z: 510_000 })
        .nozzle_offset(1_100_000)
        .cp_offset(-290_000)
        .tvc_max(90_000)
        .build();
    assert_eq!(st.name, "X");
    assert_eq!(st.dry_mass, 21_500_000);
    assert_eq!(st.propellant_mass, 9_250_000);
    assert_eq!(st.thrust, 1_999_000_000);
    assert_eq!(st.isp, 231_000_000);
    assert_eq!(st.cd, 310_000);
    assert_eq!(st.area, 8_500);
    assert_eq!(st.inertia, Vec3 { x: 5_100_000, y: 5_200_000, z: 510_000 });
    assert_eq!(st.nozzle_offset, 1_100_000);
    assert_eq!(st.cp_offset, -290_000);
    assert_eq!(st.tvc_max, 90_000);
}

#[test]
fn stage_derived_quantities() {
    let st = StageBuilder::new("Main".to_string())
        .dry_mass(20_000_000)
        .propellant_mass(10_000_000)
        .thrust(2_000_000_000)
        .isp(220_000_000)
        .build();
    assert_eq!(st.total_mass(), 30_000_000);
    let mdot = st.mass_flow() as f64 / 1e6;
    assert!((mdot - 0.926_995).abs() < 1e-4, "mass flow {mdot}");
    let bt = st.burn_time() as f64 / 1e6;
    assert!((bt - 10.787_5).abs() < 0.01, "burn time {bt}");
    // rocket equation with no payload: 220 * 9.80665 * ln(30/20)
    let dv = st.delta_v(0) as f64 / 1e6;
    let expect = 220.0 * 9.80665 * (1.5f64).ln();
    assert!((dv - expect).abs() < 0.05, "delta-v {dv} vs {expect}");
}

#[test]
fn mission_builder_collects_stages() {
    let m = MissionBuilder::new("M".to_string())
        .stage(StageBuilder::new("A".to_string()).build())
        .stage(StageBuilder::new("B".to_string()).build())
        .build();
    assert_eq!(m.name, "M");
    assert_eq!(m.stages.len(), 2);
    assert_eq!(m.stages[0].name, "A");
    assert_eq!(m.stages[1].name, "B");
}

#[test]
fn mission_mass_accounting() {
    let m = pathfinder();
    // 40+25 + 8+6 = 79 kg
    assert_eq!(m.total_mass(), 79_000_000);
    assert_eq!(m.upper_stages_mass(0), 14_000_000);
    assert_eq!(m.upper_stages_mass(1), 0);
    assert!(m.validate().is_ok());
}

#[test]
fn mission_total_delta_v_matches_rocket_equation() {
    let m = pathfinder();
    let dv = m.total_delta_v() as f64 / 1e6;
    // booster with the sustainer as payload, then the sustainer alone
    let s1 = 220.0 * 9.80665 * (79.0f64 / 54.0).ln();
    let s2 = 250.0 * 9.80665 * (14.0f64 / 8.0).ln();
    let expect = s1 + s2;
    assert!((dv - expect).abs() < 0.1, "total dv {dv} vs {expect}");
}

#[test]
fn active_stage_lookup() {
    let m = pathfinder();
    assert_eq!(m.active_stage(0).unwrap().name, "S1-Booster");
    assert_eq!(m.active_stage(1).unwrap().name, "S2-Sustainer");
    assert!(m.active_stage(2).is_none());
}

fn sample(time: i64, alt: i64, vz: i64, mass: i64) -> State {
    State {
        time,
        pos: Vec3 { x: 0, y: 0, z: alt },
        vel: Vec3 { x: 0, y: 0, z: vz },
        quat: Quat { w: 1_000_000_000, x: 0, y: 0, z: 0 },
        omega: Vec3 { x: 0, y: 0, z: 0 },
        mass,
        stage_idx: 0,
    }
}

#[test]
fn summary_computes_apogee() {
    let traj = vec![
        sample(0, 0, 100_000_000, 100_000_000),
        sample(10_000_000, 5_000_000_000, 0, 80_000_000),
        sample(20_000_000, 0, -50_000_000, 80_000_000),
    ];
    let s = FlightSummary::from_trajectory(&traj);
    assert_eq!(s.apogee_m, 5_000_000_000);
    assert_eq!(s.apogee_time, 10_000_000);
    assert_eq!(s.max_speed, 100_000_000);
    assert_eq!(s.flight_time, 20_000_000);
    assert_eq!(s.impact_speed, 50_000_000);
    // accel between samples: |dv| / dt = 100 / 10 then 50 / 10
    assert_eq!(s.max_accel, 10_000_000);
    let g = s.max_accel_g as f64 / 1e6;
    assert!((g - 10.0 / 9.80665).abs() < 1e-3);
}

#[test]
fn summary_of_single_sample() {
    let traj = vec![sample(3_000_000, 1_000_000, 7_000_000, 50_000_000)];
    let s = FlightSummary::from_trajectory(&traj);
    assert_eq!(s.apogee_m, 1_000_000);
    assert_eq!(s.max_accel, 0);
    assert_eq!(s.flight_time, 3_000_000);
}

#[test]
fn clone_keeps_mission_intact() {
    let m = pathfinder();
    let c: Mission = m.clone();
    assert_eq!(c.stages.len(), m.stages.len());
    assert_eq!(c.stages[0].thrust, m.stages[0].thrust);
}
