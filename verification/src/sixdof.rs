//! The six-degree-of-freedom equations of motion.
//!
//! `derivatives` assembles the force and torque model -- gravity, gimballed
//! thrust rotated through the attitude, quadratic drag, the thrust-offset
//! moment, the aerodynamic restoring moment and rate damping -- into the
//! full state derivative, closed by Euler's rigid-body equation and the raw
//! quaternion rate. Past the last stage the model degrades to gravity-only
//! free fall. The contract carries the flight laws: mass flow is never
//! positive and vanishes outside a burn; with no thrust and upward motion
//! the vertical acceleration is never positive; and on the pad, a
//! thrust-to-weight ratio above one lifts the vehicle.

use vstd::prelude::*;

use crate::aerodynamics::{damping_moment, drag_force, restoring_moment};
use crate::atmosphere::{isa, Atmo};
use crate::fixed::{
    clamp_s, fx_clamp, fx_cross_term, fx_div, fx_max, fx_mul, fx_neg, fx_sub, fxdiv, fxmul,
    is_isqrt, lemma_fxdiv_sign, lemma_fxmul_one, lemma_fxmul_sign, lemma_isqrt_unique,
    lemma_quot_sign, lemma_quot_zero, quot, sat64, QSCALE, SCALE,
};
use crate::gravity::{gravity_force, spec_gravity_mag};
use crate::mission::{spec_mass_sum, spec_mission_wf, Mission};
use crate::quat::{lemma_rot_identity, lemma_rot_zero_vec, qc, Quat};
use crate::stage::{spec_mass_flow, Stage};
use crate::state::{Deriv, GncCommand, State};
use crate::trig::{cos_fx, lemma_trig_zero, sin_fx, spec_cos, spec_sin};
use crate::vec3::{norm3_s, Vec3};

verus! {

/// Propellant left in the active stage: vehicle mass, less the active
/// stage's structure, less everything stacked above it.
pub open spec fn spec_remaining_prop(s: State, m: Mission) -> int {
    let st = m.stages@[s.stage_idx as int];
    sat64(
        sat64(s.mass - st.dry_mass) - spec_mass_sum(
            m.stages@,
            s.stage_idx + 1,
            m.stages@.len() as int,
        ),
    )
}

/// The active stage is producing thrust: a stage exists, more than 0.01 kg
/// of propellant remains, and the stage has a positive rating.
pub open spec fn spec_burning(s: State, m: Mission) -> bool {
    &&& s.stage_idx < m.stages@.len()
    &&& spec_remaining_prop(s, m) > 10_000
    &&& m.stages@[s.stage_idx as int].thrust > 0
}

/// A gimbal command clamped to the stage's travel (guarded against a
/// negative configured limit).
pub open spec fn spec_gimbal(axis: int, tvc_max: int) -> int {
    let lim = if tvc_max >= 0 { tvc_max } else { 0 };
    clamp_s(axis, -lim, lim)
}

/// The state is at ignition rest: no velocity, no rotation, level
/// attitude, neutral command.
pub open spec fn spec_on_pad(s: State, c: GncCommand) -> bool {
    &&& s.vel == (Vec3 { x: 0, y: 0, z: 0 })
    &&& s.omega == (Vec3 { x: 0, y: 0, z: 0 })
    &&& s.quat == (Quat { w: QSCALE, x: 0, y: 0, z: 0 })
    &&& c == (GncCommand { gimbal_y: 0, gimbal_z: 0 })
}

/// Vertical acceleration on the pad: `(thrust - g m) / m` in fixed
/// arithmetic.
pub open spec fn spec_pad_accel_z(s: State, thrust: int) -> int {
    let g = spec_gravity_mag(s.pos.z as int);
    let fz = sat64(sat64(fxmul(sat64(-g), s.mass as int) + thrust) + 0);
    fxdiv(fz, s.mass as int)
}

/// Gravity-only free fall: how the derivative degrades once no stage is
/// active.
fn zero_deriv(state: &State) -> (r: Deriv)
    ensures
        r.dpos == state.vel,
        r.dvel.x == 0 && r.dvel.y == 0,
        r.dvel.z as int == sat64(-spec_gravity_mag(state.pos.z as int)),
        r.dvel.z <= 0,
        r.dquat == (Quat { w: 0, x: 0, y: 0, z: 0 }),
        r.domega == (Vec3 { x: 0, y: 0, z: 0 }),
        r.dmass == 0,
{
    let g: Vec3 = crate::gravity::gravity_accel(state.pos.z);
    Deriv {
        dpos: state.vel,
        dvel: g,
        dquat: Quat { w: 0, x: 0, y: 0, z: 0 },
        domega: Vec3 { x: 0, y: 0, z: 0 },
        dmass: 0,
    }
}

/// The thrust vector in the body frame: rated thrust deflected by the
/// clamped gimbal angles, by direct sine/cosine projection; zero outside a
/// burn.
fn thrust_body_vec(stage: &Stage, cmd: &GncCommand, burning: bool) -> (r: Vec3)
    ensures
        !burning ==> r == (Vec3 { x: 0, y: 0, z: 0 }),
        burning ==> {
            let gy = spec_gimbal(cmd.gimbal_y as int, stage.tvc_max as int);
            let gz = spec_gimbal(cmd.gimbal_z as int, stage.tvc_max as int);
            &&& r.x as int == fxmul(stage.thrust as int, spec_sin(gz))
            &&& r.y as int == fxmul(stage.thrust as int, spec_sin(gy))
            &&& r.z as int == fxmul(fxmul(stage.thrust as int, spec_cos(gy)), spec_cos(gz))
        },
        burning && cmd.gimbal_y == 0 && cmd.gimbal_z == 0 && 0 <= stage.thrust ==> (r.x == 0
            && r.y == 0 && r.z == stage.thrust),
{
    if burning {
        let lim: i64 = fx_max(stage.tvc_max, 0);
        let gy: i64 = fx_clamp(cmd.gimbal_y, -lim, lim);
        let gz: i64 = fx_clamp(cmd.gimbal_z, -lim, lim);
        proof {
            if cmd.gimbal_y == 0 && cmd.gimbal_z == 0 && 0 <= stage.thrust {
                lemma_trig_zero();
                lemma_fxmul_sign(stage.thrust as int, 0);
                lemma_fxmul_one(stage.thrust as int);
                lemma_fxmul_one(fxmul(stage.thrust as int, SCALE as int));
            }
        }
        Vec3 {
            x: fx_mul(stage.thrust, sin_fx(gz)),
            y: fx_mul(stage.thrust, sin_fx(gy)),
            z: fx_mul(fx_mul(stage.thrust, cos_fx(gy)), cos_fx(gz)),
        }
    } else {
        Vec3 { x: 0, y: 0, z: 0 }
    }
}

/// Net force in the inertial frame: gravity, the body thrust rotated
/// through the attitude, and drag. The contract carries what the flight
/// laws need: with no thrust and non-sinking motion the vertical force is
/// never positive, and at ignition rest the force is the axial thrust less
/// the weight.
fn net_force(state: &State, atm: &Atmo, cd: i64, area: i64, tb: &Vec3) -> (f: Vec3)
    ensures
        *tb == (Vec3 { x: 0, y: 0, z: 0 }) && atm.density >= 0 && cd >= 0 && area >= 0
            && state.mass >= 0 && state.vel.z >= 0 ==> f.z <= 0,
        state.vel == (Vec3 { x: 0, y: 0, z: 0 }) && state.quat == (Quat {
            w: QSCALE,
            x: 0,
            y: 0,
            z: 0,
        }) ==> {
            &&& f.x as int == sat64(sat64(0 + tb.x) + 0)
            &&& f.y as int == sat64(sat64(0 + tb.y) + 0)
            &&& f.z as int == sat64(
                sat64(
                    fxmul(sat64(-spec_gravity_mag(state.pos.z as int)), state.mass as int) + tb.z,
                ) + 0,
            )
        },
{
    let f_gravity: Vec3 = gravity_force(state.pos.z, state.mass);
    let f_thrust_inertial: Vec3 = state.quat.rotate(tb);
    let f_drag: Vec3 = drag_force(&state.vel, atm, cd, area);
    proof {
        if *tb == (Vec3 { x: 0, y: 0, z: 0 }) {
            lemma_rot_zero_vec(
                qc(state.quat.w as int),
                qc(state.quat.x as int),
                qc(state.quat.y as int),
                qc(state.quat.z as int),
            );
        }
        if state.vel == (Vec3 { x: 0, y: 0, z: 0 }) && state.quat == (Quat {
            w: QSCALE,
            x: 0,
            y: 0,
            z: 0,
        }) {
            lemma_rot_identity(*tb);
            assert(is_isqrt(0, 0)) by (nonlinear_arith);
            lemma_isqrt_unique(0, 0);
            assert(norm3_s(state.vel) == 0);
        }
    }
    f_gravity.plus(&f_thrust_inertial).plus(&f_drag)
}

/// Net torque in the body frame: the thrust-offset moment, the restoring
/// moment and rate damping. At ignition rest with an axial thrust vector
/// every contribution vanishes.
fn net_torque(state: &State, atm: &Atmo, stage: &Stage, tb: &Vec3, speed: i64, burning: bool) -> (t:
    Vec3)
    ensures
        speed == 0 && state.omega == (Vec3 { x: 0, y: 0, z: 0 }) && tb.x == 0 && tb.y == 0 ==> t
            == (Vec3 { x: 0, y: 0, z: 0 }),
{
    let t_tvc: Vec3 = if burning {
        let arm: Vec3 = Vec3 { x: 0, y: 0, z: fx_neg(stage.nozzle_offset) };
        arm.cross(tb)
    } else {
        Vec3 { x: 0, y: 0, z: 0 }
    };
    let vel_body: Vec3 = state.quat.rotate_inv(&state.vel);
    let t_rest: Vec3 = restoring_moment(&vel_body, speed, atm, stage.area, stage.cp_offset);
    let t_damp: Vec3 = damping_moment(&state.omega, speed, atm, stage.area);
    proof {
        if speed == 0 && state.omega == (Vec3 { x: 0, y: 0, z: 0 }) && tb.x == 0 && tb.y == 0 {
            lemma_quot_zero(SCALE as int);
            if burning {
                let ghost az = sat64(-(stage.nozzle_offset as int));
                assert(0 * (tb.z as int) - az * 0 == 0) by (nonlinear_arith);
                assert(az * 0 - 0 * (tb.z as int) == 0) by (nonlinear_arith);
                assert(0 * 0 - 0 * 0 == 0) by (nonlinear_arith);
            }
        }
    }
    t_tvc.plus(&t_rest).plus(&t_damp)
}

/// Body angular acceleration from Euler's rigid-body equation with a
/// diagonal inertia tensor; zero under zero torque and zero rate.
fn angular_accel(torque: &Vec3, omega: &Vec3, inertia: &Vec3) -> (r: Vec3)
    ensures
        *torque == (Vec3 { x: 0, y: 0, z: 0 }) && *omega == (Vec3 { x: 0, y: 0, z: 0 }) ==> r == (
        Vec3 { x: 0, y: 0, z: 0 }),
{
    let iw: Vec3 = Vec3 {
        x: fx_mul(inertia.x, omega.x),
        y: fx_mul(inertia.y, omega.y),
        z: fx_mul(inertia.z, omega.z),
    };
    let gyro_x: i64 = fx_cross_term(omega.y, iw.z, omega.z, iw.y, SCALE);
    let gyro_y: i64 = fx_cross_term(omega.z, iw.x, omega.x, iw.z, SCALE);
    let gyro_z: i64 = fx_cross_term(omega.x, iw.y, omega.y, iw.x, SCALE);
    proof {
        if *torque == (Vec3 { x: 0, y: 0, z: 0 }) && *omega == (Vec3 { x: 0, y: 0, z: 0 }) {
            lemma_fxmul_sign(inertia.x as int, 0);
            lemma_fxmul_sign(inertia.y as int, 0);
            lemma_fxmul_sign(inertia.z as int, 0);
            assert(0 * (iw.z as int) - 0 * (iw.y as int) == 0) by (nonlinear_arith);
            assert(0 * (iw.x as int) - 0 * (iw.z as int) == 0) by (nonlinear_arith);
            assert(0 * (iw.y as int) - 0 * (iw.x as int) == 0) by (nonlinear_arith);
            lemma_quot_zero(SCALE as int);
            lemma_quot_zero(inertia.x as int);
            lemma_quot_zero(inertia.y as int);
            lemma_quot_zero(inertia.z as int);
            assert(0 * (SCALE as int) == 0) by (nonlinear_arith);
        }
    }
    Vec3 {
        x: fx_div(fx_sub(torque.x, gyro_x), inertia.x),
        y: fx_div(fx_sub(torque.y, gyro_y), inertia.y),
        z: fx_div(fx_sub(torque.z, gyro_z), inertia.z),
    }
}

/// Full 6DOF state derivative.
pub fn derivatives(state: &State, mission: &Mission, cmd: &GncCommand) -> (r: Deriv)
    ensures
        r.dpos == state.vel,
        spec_mission_wf(*mission) ==> r.dmass <= 0,
        !spec_burning(*state, *mission) ==> r.dmass == 0,
        spec_burning(*state, *mission) ==> r.dmass as int == sat64(
            -spec_mass_flow(mission.stages@[state.stage_idx as int]),
        ),
        state.stage_idx >= mission.stages@.len() ==> {
            &&& r.dvel.x == 0 && r.dvel.y == 0
            &&& r.dvel.z as int == sat64(-spec_gravity_mag(state.pos.z as int))
            &&& r.dquat == (Quat { w: 0, x: 0, y: 0, z: 0 })
            &&& r.domega == (Vec3 { x: 0, y: 0, z: 0 })
        },
        spec_mission_wf(*mission) && state.mass > 0 && state.vel.z >= 0 && !spec_burning(
            *state,
            *mission,
        ) ==> r.dvel.z <= 0,
        spec_mission_wf(*mission) && spec_burning(*state, *mission) && spec_on_pad(*state, *cmd)
            ==> {
            &&& r.dquat == (Quat { w: 0, x: 0, y: 0, z: 0 })
            &&& r.domega == (Vec3 { x: 0, y: 0, z: 0 })
            &&& r.dvel.x == 0 && r.dvel.y == 0
            &&& r.dvel.z as int == spec_pad_accel_z(
                *state,
                mission.stages@[state.stage_idx as int].thrust as int,
            )
        },
        spec_mission_wf(*mission) && spec_burning(*state, *mission) && spec_on_pad(*state, *cmd)
            && state.mass > 0 && (mission.stages@[state.stage_idx as int].thrust as int) * (
        SCALE as int) >= (spec_gravity_mag(state.pos.z as int) + 1) * (state.mass as int)
            ==> r.dvel.z > 0,
{
    let stage: &Stage = match mission.active_stage(state.stage_idx) {
        Some(s) => s,
        None => {
            return zero_deriv(state);
        },
    };
    let alt: i64 = fx_max(state.pos.z, 0);
    let atm: Atmo = isa(alt);

    let upper: i64 = mission.upper_stages_mass(state.stage_idx);
    let remaining: i64 = fx_sub(fx_sub(state.mass, stage.dry_mass), upper);
    let burning: bool = remaining > 10_000 && stage.thrust > 0;

    let tb: Vec3 = thrust_body_vec(stage, cmd, burning);
    let f_total: Vec3 = net_force(state, &atm, stage.cd, stage.area, &tb);
    let accel: Vec3 = Vec3 {
        x: fx_div(f_total.x, state.mass),
        y: fx_div(f_total.y, state.mass),
        z: fx_div(f_total.z, state.mass),
    };

    let speed: i64 = state.vel.norm();
    let torque: Vec3 = net_torque(state, &atm, stage, &tb, speed, burning);
    let domega: Vec3 = angular_accel(&torque, &state.omega, &stage.inertia);

    let dquat: Quat = state.quat.omega_rate(&state.omega);

    let dmass: i64 = if burning {
        fx_neg(stage.mass_flow())
    } else {
        0
    };

    proof {
        let ghost st = mission.stages@[state.stage_idx as int];
        assert(burning == spec_burning(*state, *mission));
        if spec_mission_wf(*mission) && burning {
            lemma_fxmul_sign(st.isp as int, crate::state::G0 as int);
            lemma_quot_sign(st.isp as int * (crate::state::G0 as int), SCALE as int);
            if fxmul(st.isp as int, crate::state::G0 as int) > 0 {
                lemma_fxdiv_sign(st.thrust as int, fxmul(st.isp as int, crate::state::G0 as int));
            }
        }
        if spec_mission_wf(*mission) && state.mass > 0 && state.vel.z >= 0 && !burning {
            lemma_fxdiv_sign(f_total.z as int, state.mass as int);
        }
        if spec_mission_wf(*mission) && burning && spec_on_pad(*state, *cmd) {
            // at rest: no motion, so the speed is zero
            assert(is_isqrt(0, 0)) by (nonlinear_arith);
            lemma_isqrt_unique(0, 0);
            assert(norm3_s(state.vel) == 0);
            assert(speed == 0);
            // neutral gimbal: axial thrust, no torque, no rotation rates
            assert(tb.x == 0 && tb.y == 0 && tb.z == st.thrust);
            assert(torque == (Vec3 { x: 0, y: 0, z: 0 }));
            assert(domega == (Vec3 { x: 0, y: 0, z: 0 }));
            lemma_quot_zero(2 * SCALE as int);
            assert(dquat == (Quat { w: 0, x: 0, y: 0, z: 0 }));
            // lateral channels vanish; the vertical one is thrust less weight
            lemma_quot_zero(state.mass as int);
            assert(f_total.x == 0 && f_total.y == 0);
            assert(accel.x == 0 && accel.y == 0);
            assert(accel.z as int == spec_pad_accel_z(*state, st.thrust as int));
            if state.mass > 0 && (st.thrust as int) * (SCALE as int) >= (spec_gravity_mag(
                state.pos.z as int,
            ) + 1) * (state.mass as int) {
                lemma_pad_liftoff(
                    spec_gravity_mag(state.pos.z as int),
                    state.mass as int,
                    st.thrust as int,
                );
            }
        }
    }

    Deriv { dpos: state.vel, dvel: accel, dquat, domega, dmass }
}

/// On the pad, a thrust-to-weight ratio above one (with one fixed unit of
/// margin) gives strictly positive vertical acceleration.
proof fn lemma_pad_liftoff(g: int, m: int, t: int)
    requires
        0 <= g <= i64::MAX as int,
        0 < m <= i64::MAX as int,
        0 < t <= i64::MAX as int,
        t * (SCALE as int) >= (g + 1) * m,
    ensures
        fxdiv(sat64(sat64(fxmul(sat64(-g), m) + t) + 0), m) > 0,
{
    let s = SCALE as int;
    assert(g * m >= 0) by (nonlinear_arith)
        requires
            g >= 0,
            m > 0;
    assert((g + 1) * m == g * m + m) by (nonlinear_arith);
    let gm = g * m;
    let gq = gm / s;
    vstd::arithmetic::div_mod::lemma_fundamental_div_mod(gm, s);
    vstd::arithmetic::div_mod::lemma_mod_bound(gm, s);
    vstd::arithmetic::div_mod::lemma_div_pos_is_pos(gm, s);
    assert(gq * s <= gm);
    assert(gq * s < t * s);
    assert(gq < t);
    assert(quot(gm, s) == gq);
    assert(quot(-gm, s) == -gq);
    assert(sat64(-g) == -g);
    assert((-g) * m == -(g * m)) by (nonlinear_arith);
    assert(fxmul(sat64(-g), m) == -gq);
    let fz = sat64(-gq + t);
    assert(fz == t - gq);
    assert(sat64(fz + 0) == fz);
    assert((t - gq) * s == t * s - gq * s) by (nonlinear_arith);
    let fzs = fz * s;
    assert(fzs >= m);
    assert(quot(fzs, m) == fzs / m);
    vstd::arithmetic::div_mod::lemma_div_is_ordered(m, fzs, m);
    vstd::arithmetic::div_mod::lemma_div_by_self(m);
    assert(fzs / m >= 1);
    assert(fxdiv(fz, m) >= 1);
}

} // verus!
