//! End-to-end simulation scenarios and configuration validation.

use rocket_sim::mission::{ConfigError, Mission};
use rocket_sim::runner::simulate;
use rocket_sim::stage::Stage;
use rocket_sim::state::SimConfig;
use rocket_sim::vec3::Vec3;

fn single_stage() -> Mission {
    Mission {
        name: "1-Stage".to_string(),
        stages: vec![Stage {
            name: "Main".to_string(),
            dry_mass: 20_000_000,
            propellant_mass: 10_000_000,
            thrust: 2_000_000_000,
            isp: 220_000_000,
            cd: 300_000,
            area: 8_000,
            inertia: Vec3 { x: 5_000_000, y: 5_000_000, z: 500_000 },
            nozzle_offset: 1_000_000,
            cp_offset: 300_000,
            tvc_max: 100_000,
        }],
    }
}

fn two_stage_mission() -> Mission {
    Mission {
        name: "2-Stage Test".to_string(),
        stages: vec![
            Stage {
                name: "Booster".to_string(),
                dry_mass: 40_000_000,
                propellant_mass: 30_000_000,
                thrust: 5_000_000_000,
                isp: 220_000_000,
                cd: 350_000,
                area: 20_000,
                inertia: Vec3 { x: 20_000_000, y: 20_000_000, z: 2_000_000 },
                nozzle_offset: 1_500_000,
                cp_offset: 400_000,
                tvc_max: 100_000,
            },
            Stage {
                name: "Sustainer".to_string(),
                dry_mass: 10_000_000,
                propellant_mass: 8_000_000,
                thrust: 1_500_000_000,
                isp: 250_000_000,
                cd: 300_000,
                area: 10_000,
                inertia: Vec3 { x: 3_000_000, y: 3_000_000, z: 300_000 },
                nozzle_offset: 800_000,
                cp_offset: 300_000,
                tvc_max: 80_000,
            },
        ],
    }
}

#[test]
fn single_stage_reaches_apogee() {
    let m = single_stage();
    assert!(m.validate().is_ok());
    let config = SimConfig { dt: 5_000, max_time: 300_000_000 };
    let (traj, _) = simulate(&m, &config);
    let apogee = traj.iter().map(|s| s.pos.z).max().unwrap();
    assert!(
        apogee > 1_000_000_000,
        "Single stage should reach >1 km, got {} m",
        apogee as f64 / 1e6
    );
    assert!(
        apogee < 50_000_000_000_000,
        "Apogee should stay under 50 km, got {} m",
        apogee as f64 / 1e6
    );
    let last = traj.last().unwrap();
    assert!(
        last.pos.z <= 10_000,
        "Run should end on the ground, final alt {} m",
        last.pos.z as f64 / 1e6
    );
}

#[test]
fn split_mission_beats_single_stage() {
    // the same payload split over a booster and a sustainer reaches higher
    let m1 = single_stage();
    let m2 = rocket_sim::presets::pathfinder();
    let config = SimConfig { dt: 5_000, max_time: 300_000_000 };
    let (t1, _) = simulate(&m1, &config);
    let (t2, _) = simulate(&m2, &config);
    let ap1 = t1.iter().map(|s| s.pos.z).max().unwrap();
    let ap2 = t2.iter().map(|s| s.pos.z).max().unwrap();
    assert!(ap2 > ap1, "split mission should fly higher");
    assert_eq!(t2.iter().map(|s| s.stage_idx).max().unwrap(), 1);
}

#[test]
fn two_stage_higher_than_single() {
    let m1 = single_stage();
    let m2 = two_stage_mission();
    let config = SimConfig { dt: 5_000, max_time: 300_000_000 };
    let (t1, _) = simulate(&m1, &config);
    let (t2, _) = simulate(&m2, &config);
    let ap1 = t1.iter().map(|s| s.pos.z).max().unwrap();
    let ap2 = t2.iter().map(|s| s.pos.z).max().unwrap();
    assert!(
        ap2 > ap1,
        "2-stage ({} m) should beat 1-stage ({} m)",
        ap2 as f64 / 1e6,
        ap1 as f64 / 1e6
    );
}

#[test]
fn staging_occurs() {
    let m = two_stage_mission();
    let config = SimConfig { dt: 5_000, max_time: 300_000_000 };
    let (traj, _) = simulate(&m, &config);
    let max_stage = traj.iter().map(|s| s.stage_idx).max().unwrap();
    assert_eq!(max_stage, 1, "Should reach stage index 1 (sustainer)");
}

#[test]
fn quaternion_stays_unit() {
    let m = single_stage();
    let config = SimConfig { dt: 5_000, max_time: 30_000_000 };
    let (traj, _) = simulate(&m, &config);
    for s in &traj {
        let norm = ((s.quat.w as f64).powi(2) + (s.quat.x as f64).powi(2)
            + (s.quat.y as f64).powi(2) + (s.quat.z as f64).powi(2))
        .sqrt()
            / 1e9;
        assert!(
            (norm - 1.0).abs() < 1e-6,
            "Quaternion norm drifted to {} at t={}",
            norm,
            s.time as f64 / 1e6
        );
    }
}

#[test]
fn rocket_returns_to_ground() {
    let m = single_stage();
    let config = SimConfig::default();
    let (traj, _) = simulate(&m, &config);
    let last = traj.last().unwrap();
    assert!(
        last.pos.z <= 10_000,
        "Rocket should return to ground, final alt {} m",
        last.pos.z as f64 / 1e6
    );
}

#[test]
fn mass_never_increases_and_stage_monotone() {
    let m = two_stage_mission();
    let config = SimConfig { dt: 5_000, max_time: 60_000_000 };
    let (traj, _) = simulate(&m, &config);
    for w in traj.windows(2) {
        assert!(w[1].mass <= w[0].mass);
        assert!(w[1].mass >= 0);
        assert!(w[1].stage_idx >= w[0].stage_idx);
        assert!(w[1].stage_idx < 2);
    }
}

#[test]
fn empty_mission_rejected() {
    let m = Mission { name: "none".to_string(), stages: vec![] };
    assert_eq!(m.validate(), Err(ConfigError::EmptyMission));
}

#[test]
fn bad_stage_parameters_rejected() {
    let base = single_stage();
    let mut dry = base.clone();
    dry.stages[0].dry_mass = 0;
    assert_eq!(dry.validate(), Err(ConfigError::NonPositiveDryMass));

    let mut prop = base.clone();
    prop.stages[0].propellant_mass = -1;
    assert_eq!(prop.validate(), Err(ConfigError::NegativePropellantMass));

    let mut th = base.clone();
    th.stages[0].thrust = -5;
    assert_eq!(th.validate(), Err(ConfigError::NegativeThrust));

    let mut isp = base.clone();
    isp.stages[0].isp = 0;
    assert_eq!(isp.validate(), Err(ConfigError::NonPositiveIsp));

    let mut aero = base.clone();
    aero.stages[0].cd = -1;
    assert_eq!(aero.validate(), Err(ConfigError::NegativeAero));

    let mut inertia = base.clone();
    inertia.stages[0].inertia = Vec3 { x: 0, y: 1, z: 1 };
    assert_eq!(inertia.validate(), Err(ConfigError::NonPositiveInertia));

    let mut tvc = base.clone();
    tvc.stages[0].tvc_max = -1;
    assert_eq!(tvc.validate(), Err(ConfigError::NegativeGimbalLimit));
}

#[test]
fn bad_config_rejected() {
    let c0 = SimConfig { dt: 0, max_time: 1_000_000 };
    assert_eq!(c0.validate(), Err(ConfigError::NonPositiveTimestep));
    let c1 = SimConfig { dt: 5_000, max_time: -1 };
    assert_eq!(c1.validate(), Err(ConfigError::InvalidMaxTime));
    let ok = SimConfig::default();
    assert!(ok.validate().is_ok());
}
