//! The arithmetic and elementary-function kernels against exact values and
//! an f64 oracle.

use rocket_sim::fixed::{fx_add, fx_div, fx_mul, fx_sqrt, fx_sub, SCALE};
use rocket_sim::quat::Quat;
use rocket_sim::trig::{acos_fx, asin_fx, atan2_fx, cos_fx, exp_fx, ln_fx, sin_fx};
use rocket_sim::vec3::Vec3;

fn to_f(v: i64) -> f64 {
    v as f64 / 1e6
}

#[test]
fn fixed_ops_exact() {
    assert_eq!(fx_add(2_500_000, 1_500_000), 4_000_000);
    assert_eq!(fx_sub(2_500_000, 1_500_000), 1_000_000);
    assert_eq!(fx_mul(2_000_000, 3_000_000), 6_000_000);
    assert_eq!(fx_div(6_000_000, 3_000_000), 2_000_000);
    assert_eq!(fx_mul(-2_000_000, 3_000_000), -6_000_000);
    assert_eq!(fx_div(1_000_000, 0), 0);
    assert_eq!(fx_sqrt(4_000_000), 2_000_000);
    assert_eq!(fx_sqrt(2_000_000), 1_414_213);
    assert_eq!(fx_sqrt(-1), 0);
}

#[test]
fn saturation_bounds() {
    assert_eq!(fx_add(i64::MAX, 1), i64::MAX);
    assert_eq!(fx_sub(i64::MIN, 1), i64::MIN);
    assert_eq!(fx_mul(i64::MAX, i64::MAX), i64::MAX);
}

#[test]
fn trig_matches_f64() {
    for k in -31..32 {
        let x: i64 = k * 100_000; // -3.1 .. 3.1 rad
        let xf = to_f(x);
        assert!((to_f(sin_fx(x)) - xf.sin()).abs() < 1e-5, "sin {xf}");
        assert!((to_f(cos_fx(x)) - xf.cos()).abs() < 1e-5, "cos {xf}");
    }
    assert_eq!(sin_fx(0), 0);
    assert_eq!(cos_fx(0), SCALE);
}

#[test]
fn atan2_quadrants_match_f64() {
    let pts = [
        (1_000_000i64, 2_000_000i64),
        (-1_000_000, 2_000_000),
        (1_000_000, -2_000_000),
        (-1_000_000, -2_000_000),
        (500_000, 0),
        (0, -700_000),
        (3_000_000, 400_000),
    ];
    for (y, x) in pts {
        let expect = to_f(y).atan2(to_f(x));
        assert!(
            (to_f(atan2_fx(y, x)) - expect).abs() < 2e-5,
            "atan2({y},{x})"
        );
    }
}

#[test]
fn asin_acos_match_f64() {
    for k in -10..=10 {
        let s: i64 = k * 100_000;
        let sf = to_f(s);
        assert!((to_f(asin_fx(s)) - sf.asin()).abs() < 2e-3, "asin {sf}");
        assert!((to_f(acos_fx(s)) - sf.acos()).abs() < 2e-3, "acos {sf}");
    }
}

#[test]
fn exp_ln_match_f64() {
    for k in [-3_000_000i64, -1_500_000, -200_000, 0, 400_000, 1_000_000, 2_500_000] {
        let xf = to_f(k);
        let got = to_f(exp_fx(k));
        assert!(
            ((got - xf.exp()) / xf.exp()).abs() < 1e-4,
            "exp {xf}: {got}"
        );
    }
    for k in [100_000i64, 500_000, 1_000_000, 1_500_000, 7_300_000, 55_000_000] {
        let xf = to_f(k);
        assert!((to_f(ln_fx(k)) - xf.ln()).abs() < 1e-4, "ln {xf}");
    }
    assert_eq!(ln_fx(SCALE), 0);
    assert_eq!(ln_fx(0), 0);
}

#[test]
fn vector_algebra() {
    let a = Vec3 { x: 3_000_000, y: 4_000_000, z: 0 };
    assert_eq!(a.norm(), 5_000_000);
    let u = a.unit();
    assert_eq!(u.x, 600_000);
    assert_eq!(u.y, 800_000);
    let b = Vec3 { x: 0, y: 0, z: 2_000_000 };
    let c = a.cross(&b);
    assert_eq!(c.x, 8_000_000);
    assert_eq!(c.y, -6_000_000);
    assert_eq!(c.z, 0);
    assert_eq!(a.dot(&b), 0);
}

#[test]
fn quaternion_normalize_is_tightly_unit() {
    let q = Quat { w: 997_013_331, x: 12_345_678, y: -87_654_321, z: 44_444_444 };
    let n = q.normalize();
    let norm = ((n.w as f64).powi(2) + (n.x as f64).powi(2) + (n.y as f64).powi(2)
        + (n.z as f64).powi(2))
    .sqrt()
        / 1e9;
    assert!((norm - 1.0).abs() < 1e-6, "norm {norm}");
    let tiny = Quat { w: 3, x: 4, y: 0, z: 0 };
    let nt = tiny.normalize();
    let norm_t = ((nt.w as f64).powi(2) + (nt.x as f64).powi(2)).sqrt() / 1e9;
    assert!((norm_t - 1.0).abs() < 1e-6, "norm {norm_t}");
}

#[test]
fn quaternion_rotation_preserves_length() {
    // a quarter turn about x expressed directly in components
    let h = (0.5f64).sqrt();
    let q = Quat { w: (h * 1e9) as i64, x: (h * 1e9) as i64, y: 0, z: 0 };
    let v = Vec3 { x: 0, y: 0, z: 1_000_000 };
    let r = q.rotate(&v);
    // up rotates to -north
    assert!((r.y + 1_000_000).abs() < 10, "y {}", r.y);
    assert!(r.z.abs() < 10 && r.x.abs() < 10);
    let back = q.rotate_inv(&r);
    assert!((back.z - 1_000_000).abs() < 10 && back.x.abs() < 10 && back.y.abs() < 10);
}
