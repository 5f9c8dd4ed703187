//! Standard-atmosphere behaviour at reference altitudes.

use rocket_sim::atmosphere::isa;

#[test]
fn sea_level_standard_values() {
    let a = isa(0);
    assert!((a.temperature - 288_150_000).abs() < 10_000);
    assert!((a.pressure - 101_325_000_000i64).abs() < 1_000_000);
    assert!((a.density - 1_225_000).abs() < 1_000);
    assert!((a.sound_speed - 340_290_000).abs() < 100_000);
}

#[test]
fn tropopause_11km() {
    let a = isa(11_000_000_000);
    assert!((a.temperature - 216_650_000).abs() < 500_000);
    assert!((a.pressure - 22_632_000_000i64).abs() < 100_000_000);
}

#[test]
fn density_monotonically_decreases() {
    let rho_0 = isa(0).density;
    let rho_10k = isa(10_000_000_000).density;
    let rho_50k = isa(50_000_000_000).density;
    assert!(rho_0 > rho_10k);
    assert!(rho_10k > rho_50k);
    assert!(rho_50k > 0);
}

#[test]
fn negative_altitude_clamps_to_sea_level() {
    let a = isa(-500_000_000);
    assert!((a.temperature - 288_150_000).abs() < 10_000);
}

#[test]
fn near_vacuum_above_86km() {
    let a = isa(100_000_000_000);
    assert!(a.density < 10);
    assert!(a.pressure < 1_000_000);
}

#[test]
fn pressure_tracks_f64_model_in_troposphere() {
    // hold the fixed-point barometric formula against an f64 evaluation
    for h_m in [1000.0f64, 3000.0, 5000.0, 8000.0, 10500.0] {
        let t = 288.15 - 0.0065 * h_m;
        let p = 101_325.0 * (t / 288.15f64).powf(5.255_879_8);
        let a = isa((h_m * 1e6) as i64);
        let p_fx = a.pressure as f64 / 1e6;
        assert!(
            ((p_fx - p) / p).abs() < 1e-3,
            "pressure at {h_m} m: fixed {p_fx}, f64 {p}"
        );
    }
}
