//! The orbital propagator: closure of a circular orbit (an isolated check
//! of the integrator's accuracy) and the J2 perturbation.

use rocket_sim::gravity::{gravity_j2_eci, gravity_pointmass_eci, R_EARTH_ECI};
use rocket_sim::propagator::{propagate_orbit, OrbitalState};
use rocket_sim::vec3::Vec3;

const MU: f64 = 3.986_004_418e14;

fn vnorm(v: &Vec3) -> f64 {
    ((v.x as f64).powi(2) + (v.y as f64).powi(2) + (v.z as f64).powi(2)).sqrt() / 1e6
}

#[test]
fn circular_orbit_stays_circular() {
    let r = (R_EARTH_ECI as f64 / 1e6) + 400_000.0;
    let v = (MU / r).sqrt();
    let initial = OrbitalState {
        time: 0,
        pos: Vec3 { x: (r * 1e6) as i64, y: 0, z: 0 },
        vel: Vec3 { x: 0, y: (v * 1e6) as i64, z: 0 },
    };

    // one full period at dt = 1 s
    let period = 2.0 * std::f64::consts::PI * (r.powi(3) / MU).sqrt();
    let traj = propagate_orbit(&initial, 1_000_000, (period * 1e6) as i64, false);
    let last = traj.last().unwrap();

    let dx = (last.pos.x - initial.pos.x) as f64 / 1e6;
    let dy = (last.pos.y - initial.pos.y) as f64 / 1e6;
    let dz = (last.pos.z - initial.pos.z) as f64 / 1e6;
    let pos_error = (dx * dx + dy * dy + dz * dz).sqrt();
    let circumference = 2.0 * std::f64::consts::PI * r;
    let relative_error = pos_error / circumference;
    assert!(
        relative_error < 2e-4,
        "Relative position error after one orbit: {relative_error:.2e} ({pos_error:.0} m)"
    );
}

#[test]
fn j2_causes_raan_drift() {
    let r = (R_EARTH_ECI as f64 / 1e6) + 400_000.0;
    let v = (MU / r).sqrt();
    let inc = 51.6f64.to_radians();
    let initial = OrbitalState {
        time: 0,
        pos: Vec3 { x: (r * 1e6) as i64, y: 0, z: 0 },
        vel: Vec3 {
            x: 0,
            y: (v * inc.cos() * 1e6) as i64,
            z: (v * inc.sin() * 1e6) as i64,
        },
    };
    let period = 2.0 * std::f64::consts::PI * (r.powi(3) / MU).sqrt();
    let dur = (period * 1e6) as i64;
    let t_no = propagate_orbit(&initial, 1_000_000, dur, false);
    let t_j2 = propagate_orbit(&initial, 1_000_000, dur, true);
    let a = t_no.last().unwrap().pos;
    let b = t_j2.last().unwrap().pos;
    let diff = vnorm(&Vec3 { x: a.x - b.x, y: a.y - b.y, z: a.z - b.z });
    assert!(diff > 10.0, "J2 should cause measurable difference, got {diff:.1} m");
}

#[test]
fn j2_reduces_to_pointmass_at_equator() {
    let pos = Vec3 { x: R_EARTH_ECI + 400_000_000_000, y: 0, z: 0 };
    let a_j2 = gravity_j2_eci(&pos);
    let a_pm = gravity_pointmass_eci(&pos);
    let diff = vnorm(&Vec3 { x: a_j2.x - a_pm.x, y: a_j2.y - a_pm.y, z: a_j2.z - a_pm.z });
    let ref_mag = vnorm(&a_pm);
    assert!(diff / ref_mag < 0.01, "J2 correction under 1% at LEO");
}

#[test]
fn orbital_state_accessors() {
    let s = OrbitalState {
        time: 0,
        pos: Vec3 { x: R_EARTH_ECI + 400_000_000_000, y: 0, z: 0 },
        vel: Vec3 { x: 0, y: 7_668_000_000, z: 0 },
    };
    assert_eq!(s.altitude(), 400_000_000_000);
    assert_eq!(s.speed(), 7_668_000_000);
}
