//! Hohmann transfer arithmetic against known mission numbers.

use rocket_sim::gravity::R_EARTH_ECI;
use rocket_sim::maneuvers::{circular_velocity, hohmann};

#[test]
fn hohmann_leo_to_geo() {
    let r_leo = R_EARTH_ECI + 200_000_000_000; // 200 km LEO
    let r_geo = 42_164_000_000_000; // GEO radius
    let h = hohmann(r_leo, r_geo);

    // known values: ~2.46 km/s + ~1.48 km/s, about 3.94 km/s total
    let total = h.total_dv as f64 / 1e6;
    assert!(
        total > 3_800.0 && total < 4_100.0,
        "LEO to GEO dv should be about 3.94 km/s, got {total:.0} m/s"
    );
    // transfer time about 5.3 hours
    let t = h.transfer_time as f64 / 1e6;
    assert!(
        t > 18_000.0 && t < 20_000.0,
        "Transfer time should be about 5.3 h, got {t:.0} s"
    );
    assert_eq!(h.r1, r_leo);
    assert_eq!(h.r2, r_geo);
    assert_eq!(h.total_dv, h.dv1 + h.dv2);
}

#[test]
fn zero_dv_for_same_orbit() {
    let r = R_EARTH_ECI + 400_000_000_000;
    let h = hohmann(r, r);
    assert!(h.total_dv < 10, "same orbit needs no burn, got {} m/s", h.total_dv as f64 / 1e6);
}

#[test]
fn circular_velocity_at_leo() {
    let r = R_EARTH_ECI + 400_000_000_000;
    let v = circular_velocity(r) as f64 / 1e6;
    let expect = (3.986_004_418e14 / (r as f64 / 1e6)).sqrt();
    assert!((v - expect).abs() < 0.01, "circular speed {v} vs {expect}");
}
