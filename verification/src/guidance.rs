//! The pitch program: vertical ascent, linear pitchover, gravity turn.

use vstd::prelude::*;

use crate::fixed::{fx_add, fx_div, fx_mul, fx_sub, fxdiv, fxmul, sat64, SCALE};
use crate::mission::Mission;
use crate::state::State;
use crate::trig::{asin_fx, spec_asin, HALF_PI_FX};
use crate::vec3::norm3_s;

verus! {

/// End of the vertical-ascent phase, s.
pub const T_VERTICAL: i64 = 2_000_000;

/// End of the pitchover ramp, s.
pub const T_PITCHOVER_END: i64 = 15_000_000;

/// Commanded pitch at the end of the pitchover (45 degrees), rad.
pub const TARGET_PITCH: i64 = 785_398;

/// The commanded pitch above the horizon: 90 degrees for the first two
/// seconds, a linear ramp down to the target until fifteen seconds, then
/// the flight-path angle (gravity turn) once the vehicle is faster than
/// 5 m/s.
pub open spec fn spec_guidance_pitch(s: State) -> int {
    if s.time < T_VERTICAL as int {
        HALF_PI_FX as int
    } else if s.time < T_PITCHOVER_END as int {
        let frac = fxdiv(
            sat64(s.time - T_VERTICAL as int),
            sat64(T_PITCHOVER_END as int - T_VERTICAL as int),
        );
        sat64(
            (HALF_PI_FX as int) + fxmul(frac, sat64(TARGET_PITCH as int - HALF_PI_FX as int)),
        )
    } else {
        let speed = norm3_s(s.vel);
        if speed > 5 * SCALE as int {
            spec_asin(fxdiv(s.vel.z as int, speed))
        } else {
            TARGET_PITCH as int
        }
    }
}

/// Desired pitch angle for the current state (the mission is accepted for
/// symmetry with the controller interface; the default program does not
/// read it).
pub fn guidance_pitch(state: &State, mission: &Mission) -> (r: i64)
    ensures
        r as int == spec_guidance_pitch(*state),
        state.time < T_VERTICAL as int ==> r == HALF_PI_FX,
{
    let _ = mission;
    let t: i64 = state.time;
    if t < T_VERTICAL {
        HALF_PI_FX
    } else if t < T_PITCHOVER_END {
        let frac: i64 = fx_div(fx_sub(t, T_VERTICAL), fx_sub(T_PITCHOVER_END, T_VERTICAL));
        fx_add(HALF_PI_FX, fx_mul(frac, fx_sub(TARGET_PITCH, HALF_PI_FX)))
    } else {
        let speed: i64 = state.vel.norm();
        if speed > 5 * SCALE {
            asin_fx(fx_div(state.vel.z, speed))
        } else {
            TARGET_PITCH
        }
    }
}

} // verus!
