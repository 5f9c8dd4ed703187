//! Gravity models: inverse-square in the launch frame, and point-mass /
//! J2-perturbed acceleration in Earth-centred inertial coordinates for the
//! orbital propagator.

use vstd::prelude::*;

use crate::fixed::{
    fx_mul, fx_neg, fxdiv, fxmul, lemma_fxdiv_sign, lemma_fxmul_sign, quot, quot_i128, sat64,
    sat_i128, SCALE,
};
use crate::state::{EARTH_RADIUS, G0};
use crate::vec3::{norm3_s, Vec3};

verus! {

/// Earth's gravitational parameter scaled by `SCALE^3`, so that dividing by
/// a squared fixed-point radius yields a fixed-point acceleration.
pub const MU_EARTH_NUM: i128 = 398_600_441_800_000 * 1_000_000_000_000_000_000;

/// Equatorial radius for the ECI models, m at fixed scale.
pub const R_EARTH_ECI: i64 = 6_378_137_000_000;

/// `1.5 J2` at fixed scale.
pub const J2_15: i64 = 1_624;

/// Gravity magnitude at a clamped altitude:
/// `g0 (R / (R + h))^2`.
pub open spec fn spec_gravity_mag(altitude: int) -> int {
    let h = if altitude >= 0 { altitude } else { 0 };
    let f = fxdiv(EARTH_RADIUS as int, sat64(EARTH_RADIUS + h));
    fxmul(G0 as int, fxmul(f, f))
}

/// Inverse-square gravitational acceleration in the launch frame: straight
/// down, magnitude attenuating with altitude.
pub fn gravity_accel(altitude: i64) -> (r: Vec3)
    ensures
        r.x == 0,
        r.y == 0,
        r.z as int == sat64(-spec_gravity_mag(altitude as int)),
        r.z <= 0,
{
    let h: i64 = crate::fixed::fx_max(altitude, 0);
    let denom: i64 = crate::fixed::fx_add(EARTH_RADIUS, h);
    let f: i64 = crate::fixed::fx_div(EARTH_RADIUS, denom);
    let g: i64 = fx_mul(G0, fx_mul(f, f));
    proof {
        lemma_fxdiv_sign(EARTH_RADIUS as int, denom as int);
        lemma_fxmul_sign(f as int, f as int);
        lemma_fxmul_sign(G0 as int, fxmul(f as int, f as int));
    }
    Vec3 { x: 0, y: 0, z: fx_neg(g) }
}

/// Gravitational force on a mass at a given altitude (downward for a
/// non-negative mass).
pub fn gravity_force(altitude: i64, mass: i64) -> (r: Vec3)
    ensures
        r.x == 0,
        r.y == 0,
        r.z as int == fxmul(sat64(-spec_gravity_mag(altitude as int)), mass as int),
        mass >= 0 ==> r.z <= 0,
{
    let a: Vec3 = gravity_accel(altitude);
    proof {
        lemma_fxmul_sign(a.z as int, mass as int);
        lemma_fxmul_sign(a.x as int, mass as int);
    }
    a.scale(mass)
}

/// Point-mass gravitational acceleration magnitude at squared radius
/// `r^2` (fixed units squared).
pub open spec fn spec_mu_over_r2(n: int) -> int {
    sat64(quot(MU_EARTH_NUM as int, n * n))
}

/// Point-mass gravity in the ECI frame: `-(mu / r^2) (pos / r)`; zero
/// inside a 1 m radius guard.
pub fn gravity_pointmass_eci(pos: &Vec3) -> (r: Vec3)
    ensures
        norm3_s(*pos) < SCALE as int ==> r == (Vec3 { x: 0, y: 0, z: 0 }),
        norm3_s(*pos) >= SCALE as int ==> {
            let n = norm3_s(*pos);
            let amag = spec_mu_over_r2(n);
            &&& r.x as int == sat64(-fxmul(fxdiv(pos.x as int, n), amag))
            &&& r.y as int == sat64(-fxmul(fxdiv(pos.y as int, n), amag))
            &&& r.z as int == sat64(-fxmul(fxdiv(pos.z as int, n), amag))
        },
{
    let n: i64 = pos.norm();
    if n < SCALE {
        return Vec3 { x: 0, y: 0, z: 0 };
    }
    proof {
        assert((n as int) * (n as int) <= 0x4000_0000_0000_0000_0000_0000_0000_0000int
            && (n as int) * (n as int) >= 0) by (nonlinear_arith)
            requires
                0 <= n as int <= 0x8000_0000_0000_0000int;
    }
    let r2: i128 = (n as i128) * (n as i128);
    let amag: i64 = sat_i128(quot_i128(MU_EARTH_NUM, r2));
    let u: Vec3 = pos.unit();
    Vec3 {
        x: fx_neg(fx_mul(u.x, amag)),
        y: fx_neg(fx_mul(u.y, amag)),
        z: fx_neg(fx_mul(u.z, amag)),
    }
}

/// The J2 scale factors applied to the point-mass acceleration.
pub open spec fn spec_j2_coeff(n: int) -> int {
    let f = fxdiv(R_EARTH_ECI as int, n);
    fxmul(J2_15 as int, fxmul(f, f))
}

/// J2-perturbed gravity in the ECI frame: the point-mass field scaled by
/// `1 + j2 (1 - 5 z^2/r^2)` laterally and `1 + j2 (3 - 5 z^2/r^2)`
/// axially; zero inside a 1 m radius guard.
pub fn gravity_j2_eci(pos: &Vec3) -> (r: Vec3)
    ensures
        norm3_s(*pos) < SCALE as int ==> r == (Vec3 { x: 0, y: 0, z: 0 }),
        norm3_s(*pos) >= SCALE as int ==> {
            let n = norm3_s(*pos);
            let amag = spec_mu_over_r2(n);
            let j2c = spec_j2_coeff(n);
            let z2r2 = fxmul(fxdiv(pos.z as int, n), fxdiv(pos.z as int, n));
            let xyf = sat64((SCALE as int) + fxmul(j2c, sat64((SCALE as int) - fxmul(5_000_000, z2r2))));
            let zf = sat64((SCALE as int) + fxmul(j2c, sat64(3_000_000 - fxmul(5_000_000, z2r2))));
            &&& r.x as int == sat64(-fxmul(fxmul(amag, xyf), fxdiv(pos.x as int, n)))
            &&& r.y as int == sat64(-fxmul(fxmul(amag, xyf), fxdiv(pos.y as int, n)))
            &&& r.z as int == sat64(-fxmul(fxmul(amag, zf), fxdiv(pos.z as int, n)))
        },
{
    let n: i64 = pos.norm();
    if n < SCALE {
        return Vec3 { x: 0, y: 0, z: 0 };
    }
    proof {
        assert((n as int) * (n as int) <= 0x4000_0000_0000_0000_0000_0000_0000_0000int
            && (n as int) * (n as int) >= 0) by (nonlinear_arith)
            requires
                0 <= n as int <= 0x8000_0000_0000_0000int;
    }
    let r2: i128 = (n as i128) * (n as i128);
    let amag: i64 = sat_i128(quot_i128(MU_EARTH_NUM, r2));
    let f: i64 = crate::fixed::fx_div(R_EARTH_ECI, n);
    let j2c: i64 = fx_mul(J2_15, fx_mul(f, f));
    let u: Vec3 = pos.unit();
    let z2r2: i64 = fx_mul(u.z, u.z);
    let five_z: i64 = fx_mul(5_000_000, z2r2);
    let xyf: i64 = crate::fixed::fx_add(SCALE, fx_mul(j2c, crate::fixed::fx_sub(SCALE, five_z)));
    let zf: i64 = crate::fixed::fx_add(SCALE, fx_mul(j2c, crate::fixed::fx_sub(3_000_000, five_z)));
    Vec3 {
        x: fx_neg(fx_mul(fx_mul(amag, xyf), u.x)),
        y: fx_neg(fx_mul(fx_mul(amag, xyf), u.y)),
        z: fx_neg(fx_mul(fx_mul(amag, zf), u.z)),
    }
}

} // verus!
