//! Passive event detectors over consecutive samples.

use rocket_sim::event::{AltitudeDetector, ApogeeDetector, EventDetector, EventKind};
use rocket_sim::quat::Quat;
use rocket_sim::state::State;
use rocket_sim::vec3::Vec3;

fn make_state(alt: i64, vz: i64) -> State {
    State {
        time: 0,
        pos: Vec3 { x: 0, y: 0, z: alt },
        vel: Vec3 { x: 0, y: 0, z: vz },
        quat: Quat { w: 1_000_000_000, x: 0, y: 0, z: 0 },
        omega: Vec3 { x: 0, y: 0, z: 0 },
        mass: 100_000_000,
        stage_idx: 0,
    }
}

#[test]
fn apogee_detected() {
    let mut det = ApogeeDetector;
    let prev = make_state(5_000_000_000, 10_000_000);
    let curr = make_state(5_005_000_000, -1_000_000);
    assert_eq!(det.check(&prev, &curr), Some(EventKind::Apogee));
}

#[test]
fn apogee_not_detected_low() {
    let mut det = ApogeeDetector;
    let prev = make_state(50_000_000, 10_000_000);
    let curr = make_state(55_000_000, -1_000_000);
    assert_eq!(det.check(&prev, &curr), None);
}

#[test]
fn altitude_detector_ascending() {
    let mut det = AltitudeDetector::new(1_000_000_000, true);
    let prev = make_state(900_000_000, 100_000_000);
    let curr = make_state(1_050_000_000, 100_000_000);
    assert!(det.check(&prev, &curr).is_some());
    // does not fire twice
    assert!(det.check(&prev, &curr).is_none());
}

#[test]
fn altitude_detector_descending() {
    let mut det = AltitudeDetector::new(500_000_000, false);
    let up_prev = make_state(400_000_000, 50_000_000);
    let up_curr = make_state(600_000_000, 50_000_000);
    assert!(det.check(&up_prev, &up_curr).is_none());
    let dn_prev = make_state(600_000_000, -50_000_000);
    let dn_curr = make_state(450_000_000, -50_000_000);
    assert!(det.check(&dn_prev, &dn_curr).is_some());
}
