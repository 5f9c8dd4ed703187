//! Aerodynamic forces and moments: quadratic drag opposing the velocity, a
//! restoring moment from the centre-of-pressure offset, and rate damping.

use vstd::prelude::*;

use crate::atmosphere::Atmo;
use crate::fixed::{
    abs_int, fx_abs, fx_div, fx_divi, fx_mul, fx_neg, fxdiv, fxmul, lemma_fxdiv_sign,
    lemma_fxmul_sign, lemma_quot_sign, quot, sat64, SCALE,
};
use crate::trig::spec_atan2;
use crate::vec3::{norm3_s, Vec3};

verus! {

/// Dynamic pressure `rho v^2 / 2` at a given speed.
pub open spec fn spec_q_dyn(density: int, speed: int) -> int {
    quot(fxmul(density, fxmul(speed, speed)), 2)
}

/// Drag magnitude `q_dyn cd area`.
pub open spec fn spec_drag_mag(density: int, speed: int, cd: int, area: int) -> int {
    fxmul(fxmul(spec_q_dyn(density, speed), cd), area)
}

/// Aerodynamic drag force, opposing the velocity; zero below the
/// 1e-6 m/s speed threshold. With a non-negative density, drag
/// coefficient and area, each component opposes the matching velocity
/// component.
pub fn drag_force(vel: &Vec3, atm: &Atmo, cd: i64, area: i64) -> (r: Vec3)
    ensures
        norm3_s(*vel) <= 1 ==> r == (Vec3 { x: 0, y: 0, z: 0 }),
        norm3_s(*vel) > 1 ==> {
            let sp = norm3_s(*vel);
            let dm = spec_drag_mag(atm.density as int, sp, cd as int, area as int);
            &&& r.x as int == sat64(-fxmul(fxdiv(vel.x as int, sp), dm))
            &&& r.y as int == sat64(-fxmul(fxdiv(vel.y as int, sp), dm))
            &&& r.z as int == sat64(-fxmul(fxdiv(vel.z as int, sp), dm))
        },
        atm.density >= 0 && cd >= 0 && area >= 0 && vel.z >= 0 ==> r.z <= 0,
        atm.density >= 0 && cd >= 0 && area >= 0 && vel.z <= 0 ==> r.z >= 0,
{
    let sp: i64 = vel.norm();
    if sp > 1 {
        let v2: i64 = fx_mul(sp, sp);
        let qd: i64 = fx_divi(fx_mul(atm.density, v2), 2);
        let dm: i64 = fx_mul(fx_mul(qd, cd), area);
        let u: Vec3 = Vec3 { x: fx_div(vel.x, sp), y: fx_div(vel.y, sp), z: fx_div(vel.z, sp) };
        proof {
            if atm.density >= 0 && cd >= 0 && area >= 0 {
                lemma_fxmul_sign(sp as int, sp as int);
                lemma_fxmul_sign(atm.density as int, v2 as int);
                lemma_quot_sign(fxmul(atm.density as int, v2 as int), 2);
                lemma_fxmul_sign(qd as int, cd as int);
                lemma_fxmul_sign(fxmul(qd as int, cd as int), area as int);
                lemma_fxdiv_sign(vel.z as int, sp as int);
                lemma_fxmul_sign(fxdiv(vel.z as int, sp as int), dm as int);
            }
        }
        Vec3 {
            x: fx_neg(fx_mul(u.x, dm)),
            y: fx_neg(fx_mul(u.y, dm)),
            z: fx_neg(fx_mul(u.z, dm)),
        }
    } else {
        Vec3 { x: 0, y: 0, z: 0 }
    }
}

/// Restoring moment from the CP-CG offset, body frame. Pitch and yaw
/// angles of attack are read from the body-frame velocity; a positive
/// offset (CP ahead of CG) steers the vehicle back toward the flow.
pub fn restoring_moment(vel_body: &Vec3, speed: i64, atm: &Atmo, area: i64, cp_offset: i64) -> (r:
    Vec3)
    ensures
        speed <= SCALE || abs_int(cp_offset as int) <= 1 ==> r == (Vec3 { x: 0, y: 0, z: 0 }),
        speed > SCALE && abs_int(cp_offset as int) > 1 ==> {
            let nf = fxmul(fxmul(spec_q_dyn(atm.density as int, speed as int), area as int), 2_000_000);
            let ay = spec_atan2(vel_body.y as int, vel_body.z as int);
            let az = spec_atan2(vel_body.x as int, vel_body.z as int);
            &&& r.x as int == sat64(-fxmul(fxmul(nf, ay), cp_offset as int))
            &&& r.y as int == fxmul(fxmul(nf, az), cp_offset as int)
            &&& r.z == 0
        },
{
    let acp: i64 = fx_abs(cp_offset);
    if speed <= SCALE || acp <= 1 {
        return Vec3 { x: 0, y: 0, z: 0 };
    }
    let v2: i64 = fx_mul(speed, speed);
    let qd: i64 = fx_divi(fx_mul(atm.density, v2), 2);
    let nf: i64 = fx_mul(fx_mul(qd, area), 2_000_000);
    let ay: i64 = crate::trig::atan2_fx(vel_body.y, vel_body.z);
    let az: i64 = crate::trig::atan2_fx(vel_body.x, vel_body.z);
    Vec3 {
        x: fx_neg(fx_mul(fx_mul(nf, ay), cp_offset)),
        y: fx_mul(fx_mul(nf, az), cp_offset),
        z: 0,
    }
}

/// Damping moment opposing the body rotation rate, proportional to half
/// the dynamic-pressure-area product; active only above the 1 m/s floor.
pub fn damping_moment(omega: &Vec3, speed: i64, atm: &Atmo, area: i64) -> (r: Vec3)
    ensures
        speed <= SCALE ==> r == (Vec3 { x: 0, y: 0, z: 0 }),
        speed > SCALE ==> {
            let damp = quot(fxmul(spec_q_dyn(atm.density as int, speed as int), area as int), 2);
            &&& r.x as int == sat64(-fxmul(omega.x as int, damp))
            &&& r.y as int == sat64(-fxmul(omega.y as int, damp))
            &&& r.z as int == sat64(-fxmul(omega.z as int, damp))
        },
{
    if speed <= SCALE {
        return Vec3 { x: 0, y: 0, z: 0 };
    }
    let v2: i64 = fx_mul(speed, speed);
    let qd: i64 = fx_divi(fx_mul(atm.density, v2), 2);
    let damp: i64 = fx_divi(fx_mul(qd, area), 2);
    Vec3 {
        x: fx_neg(fx_mul(omega.x, damp)),
        y: fx_neg(fx_mul(omega.y, damp)),
        z: fx_neg(fx_mul(omega.z, damp)),
    }
}

} // verus!
