//! The classical fourth-order Runge-Kutta step over the full 6DOF state.
//!
//! One step evaluates the derivative four times with the *same* guidance
//! command -- the control loop closes once per outer step, not at the
//! sub-stages -- combines them with the 1-2-2-1 weights, renormalises the
//! integrated quaternion, and floors the mass at zero. The contract
//! carries the per-step laws: time advances by exactly `dt`, the stage
//! index is untouched, the attitude stays unit to within the fixed
//! tolerance, mass never increases while the vehicle burns and stays
//! exactly constant once the propellant is spent.

use vstd::prelude::*;

use crate::fixed::{
    fx_add, fx_divi, fx_max, fx_muldiv, fxmd, lemma_quot_sign, lemma_quot_zero, sat64, SCALE,
};
use crate::mission::{spec_mission_wf, Mission};
use crate::quat::{unitish, Quat};
use crate::sixdof::{derivatives, spec_burning};
use crate::state::{Deriv, GncCommand, State};
use crate::vec3::Vec3;

verus! {

/// The weighted Runge-Kutta increment `(a + 2b + 2c + d) dt / 6` in fixed
/// arithmetic.
pub open spec fn spec_rk4_delta(a: int, b: int, c: int, d: int, dt: int) -> int {
    let s = sat64(sat64(sat64(sat64(sat64(a + b) + b) + c) + c) + d);
    fxmd(s, dt, 6 * SCALE as int)
}

/// The weighted sum of the four derivative estimates, scaled by the step.
fn rk4_delta(a: i64, b: i64, c: i64, d: i64, dt: i64) -> (r: i64)
    ensures
        r as int == spec_rk4_delta(a as int, b as int, c as int, d as int, dt as int),
        a <= 0 && b <= 0 && c <= 0 && d <= 0 && dt >= 0 ==> r <= 0,
        a == 0 && b == 0 && c == 0 && d == 0 ==> r == 0,
{
    let s: i64 = fx_add(fx_add(fx_add(fx_add(fx_add(a, b), b), c), c), d);
    proof {
        if a <= 0 && b <= 0 && c <= 0 && d <= 0 && dt >= 0 {
            assert((s as int) * (dt as int) <= 0) by (nonlinear_arith)
                requires
                    s <= 0,
                    dt >= 0;
            lemma_quot_sign((s as int) * (dt as int), 6 * SCALE as int);
        }
        if a == 0 && b == 0 && c == 0 && d == 0 {
            assert((s as int) * (dt as int) == 0) by (nonlinear_arith)
                requires
                    s == 0;
            lemma_quot_zero(6 * SCALE as int);
        }
    }
    fx_muldiv(s, dt, 6 * SCALE)
}

/// One fixed-step Runge-Kutta advance of the state, holding the command
/// constant across the four stage evaluations. The integrated quaternion
/// is renormalised; mass is floored at zero; the clock moves by exactly
/// `dt`; staging is left to the staging logic.
pub fn rk4_step(state: &State, mission: &Mission, cmd: &GncCommand, dt: i64) -> (r: State)
    ensures
        r.time as int == sat64(state.time + dt),
        r.stage_idx == state.stage_idx,
        r.mass >= 0,
        unitish(r.quat),
        spec_mission_wf(*mission) && dt >= 0 && state.mass >= 0 ==> r.mass <= state.mass,
        state.mass >= 0 && !spec_burning(*state, *mission) ==> r.mass == state.mass,
{
    let k1: Deriv = derivatives(state, mission, cmd);
    let hdt: i64 = fx_divi(dt, 2);
    let s1: State = state.apply(&k1, hdt);
    let k2: Deriv = derivatives(&s1, mission, cmd);
    let s2: State = state.apply(&k2, hdt);
    let k3: Deriv = derivatives(&s2, mission, cmd);
    let s3: State = state.apply(&k3, dt);
    let k4: Deriv = derivatives(&s3, mission, cmd);

    let pos: Vec3 = Vec3 {
        x: fx_add(state.pos.x, rk4_delta(k1.dpos.x, k2.dpos.x, k3.dpos.x, k4.dpos.x, dt)),
        y: fx_add(state.pos.y, rk4_delta(k1.dpos.y, k2.dpos.y, k3.dpos.y, k4.dpos.y, dt)),
        z: fx_add(state.pos.z, rk4_delta(k1.dpos.z, k2.dpos.z, k3.dpos.z, k4.dpos.z, dt)),
    };
    let vel: Vec3 = Vec3 {
        x: fx_add(state.vel.x, rk4_delta(k1.dvel.x, k2.dvel.x, k3.dvel.x, k4.dvel.x, dt)),
        y: fx_add(state.vel.y, rk4_delta(k1.dvel.y, k2.dvel.y, k3.dvel.y, k4.dvel.y, dt)),
        z: fx_add(state.vel.z, rk4_delta(k1.dvel.z, k2.dvel.z, k3.dvel.z, k4.dvel.z, dt)),
    };
    let omega: Vec3 = Vec3 {
        x: fx_add(state.omega.x, rk4_delta(k1.domega.x, k2.domega.x, k3.domega.x, k4.domega.x, dt)),
        y: fx_add(state.omega.y, rk4_delta(k1.domega.y, k2.domega.y, k3.domega.y, k4.domega.y, dt)),
        z: fx_add(state.omega.z, rk4_delta(k1.domega.z, k2.domega.z, k3.domega.z, k4.domega.z, dt)),
    };
    let quat_raw: Quat = Quat {
        w: fx_add(state.quat.w, rk4_delta(k1.dquat.w, k2.dquat.w, k3.dquat.w, k4.dquat.w, dt)),
        x: fx_add(state.quat.x, rk4_delta(k1.dquat.x, k2.dquat.x, k3.dquat.x, k4.dquat.x, dt)),
        y: fx_add(state.quat.y, rk4_delta(k1.dquat.y, k2.dquat.y, k3.dquat.y, k4.dquat.y, dt)),
        z: fx_add(state.quat.z, rk4_delta(k1.dquat.z, k2.dquat.z, k3.dquat.z, k4.dquat.z, dt)),
    };
    let quat: Quat = quat_raw.normalize();

    let dm: i64 = rk4_delta(k1.dmass, k2.dmass, k3.dmass, k4.dmass, dt);
    let mass: i64 = fx_max(fx_add(state.mass, dm), 0);

    proof {
        if state.mass >= 0 && !spec_burning(*state, *mission) {
            assert(spec_burning(s1, *mission) == spec_burning(*state, *mission));
            assert(spec_burning(s2, *mission) == spec_burning(*state, *mission));
            assert(spec_burning(s3, *mission) == spec_burning(*state, *mission));
        }
    }

    State {
        time: fx_add(state.time, dt),
        pos,
        vel,
        quat,
        omega,
        mass,
        stage_idx: state.stage_idx,
    }
}

} // verus!
