//! Orbital propagation: a three-degree-of-freedom state in Earth-centred
//! inertial coordinates, advanced by the same fixed-step Runge-Kutta scheme
//! the flight engine uses, under point-mass or J2-perturbed gravity.

use vstd::prelude::*;

use crate::fixed::{fx_add, fx_divi, fx_muldiv, fx_sub, quot, sat64, SCALE};
use crate::gravity::{gravity_j2_eci, gravity_pointmass_eci, R_EARTH_ECI};
use crate::state::MAX_SIM_TIME;
use crate::vec3::{norm3_s, Vec3};

verus! {

/// Translational orbital state (no attitude), ECI frame.
#[derive(Debug, Clone, Copy, PartialEq, Eq, Structural)]
pub struct OrbitalState {
    pub time: i64,
    /// Position, m.
    pub pos: Vec3,
    /// Velocity, m/s.
    pub vel: Vec3,
}

impl OrbitalState {
    /// Height above the equatorial radius, m.
    pub fn altitude(&self) -> (r: i64)
        ensures
            r as int == sat64(norm3_s(self.pos) - R_EARTH_ECI as int),
    {
        let n: i64 = self.pos.norm();
        fx_sub(n, R_EARTH_ECI)
    }

    /// Inertial speed, m/s.
    pub fn speed(&self) -> (r: i64)
        ensures
            r as int == norm3_s(self.vel),
    {
        self.vel.norm()
    }
}

/// Gravitational acceleration at `pos`, with or without the J2 term.
fn accel_eci(pos: &Vec3, use_j2: bool) -> (r: Vec3) {
    if use_j2 {
        gravity_j2_eci(pos)
    } else {
        gravity_pointmass_eci(pos)
    }
}

/// One Runge-Kutta step of the two-body problem: four derivative
/// evaluations combined with the 1-2-2-1 weights. The clock advances by
/// exactly `dt`.
fn rk4_orbital_step(state: &OrbitalState, dt: i64, use_j2: bool) -> (r: OrbitalState)
    ensures
        r.time as int == sat64(state.time + dt),
{
    let hdt: i64 = fx_divi(dt, 2);

    let k1v: Vec3 = accel_eci(&state.pos, use_j2);
    let p2: Vec3 = state.pos.plus(&state.vel.scale(hdt));
    let v2: Vec3 = state.vel.plus(&k1v.scale(hdt));
    let k2v: Vec3 = accel_eci(&p2, use_j2);
    let p3: Vec3 = state.pos.plus(&v2.scale(hdt));
    let v3: Vec3 = state.vel.plus(&k2v.scale(hdt));
    let k3v: Vec3 = accel_eci(&p3, use_j2);
    let p4: Vec3 = state.pos.plus(&v3.scale(dt));
    let v4: Vec3 = state.vel.plus(&k3v.scale(dt));
    let k4v: Vec3 = accel_eci(&p4, use_j2);

    let den: i64 = 6 * SCALE;
    let pos: Vec3 = Vec3 {
        x: fx_add(
            state.pos.x,
            fx_muldiv(
                fx_add(fx_add(fx_add(fx_add(fx_add(state.vel.x, v2.x), v2.x), v3.x), v3.x), v4.x),
                dt,
                den,
            ),
        ),
        y: fx_add(
            state.pos.y,
            fx_muldiv(
                fx_add(fx_add(fx_add(fx_add(fx_add(state.vel.y, v2.y), v2.y), v3.y), v3.y), v4.y),
                dt,
                den,
            ),
        ),
        z: fx_add(
            state.pos.z,
            fx_muldiv(
                fx_add(fx_add(fx_add(fx_add(fx_add(state.vel.z, v2.z), v2.z), v3.z), v3.z), v4.z),
                dt,
                den,
            ),
        ),
    };
    let vel: Vec3 = Vec3 {
        x: fx_add(
            state.vel.x,
            fx_muldiv(
                fx_add(fx_add(fx_add(fx_add(fx_add(k1v.x, k2v.x), k2v.x), k3v.x), k3v.x), k4v.x),
                dt,
                den,
            ),
        ),
        y: fx_add(
            state.vel.y,
            fx_muldiv(
                fx_add(fx_add(fx_add(fx_add(fx_add(k1v.y, k2v.y), k2v.y), k3v.y), k3v.y), k4v.y),
                dt,
                den,
            ),
        ),
        z: fx_add(
            state.vel.z,
            fx_muldiv(
                fx_add(fx_add(fx_add(fx_add(fx_add(k1v.z, k2v.z), k2v.z), k3v.z), k3v.z), k4v.z),
                dt,
                den,
            ),
        ),
    };
    OrbitalState { time: fx_add(state.time, dt), pos, vel }
}

/// Propagate an orbit for `duration` seconds at fixed step `dt`, with the
/// point-mass field or the J2-perturbed one. Returns one sample per step,
/// beginning with the initial state; every later sample's clock is exactly
/// one step after its predecessor's.
pub fn propagate_orbit(initial: &OrbitalState, dt: i64, duration: i64, use_j2: bool) -> (r: Vec<
    OrbitalState,
>)
    requires
        0 < dt,
        0 <= duration <= MAX_SIM_TIME as int,
        quot(duration as int, dt as int) <= 100_000_000,
    ensures
        r@.len() == quot(duration as int, dt as int) + 1,
        r@[0] == *initial,
        forall|i: int|
            0 <= i < r@.len() - 1 ==> (#[trigger] r@[i + 1]).time as int == sat64(r@[i].time + dt),
{
    let n64: i64 = fx_divi(duration, dt);
    proof {
        crate::fixed::lemma_quot_sign(duration as int, dt as int);
    }
    let n: usize = n64 as usize;
    let mut trajectory: Vec<OrbitalState> = Vec::new();
    let mut state: OrbitalState = *initial;
    trajectory.push(state);
    let mut i: usize = 0;
    while i < n
        invariant
            0 <= i <= n,
            n == quot(duration as int, dt as int),
            trajectory@.len() == i + 1,
            trajectory@[0] == *initial,
            state == trajectory@[trajectory@.len() - 1],
            forall|j: int|
                0 <= j < trajectory@.len() - 1 ==> (#[trigger] trajectory@[j + 1]).time as int
                    == sat64(trajectory@[j].time + dt),
        decreases n - i,
    {
        state = rk4_orbital_step(&state, dt, use_j2);
        trajectory.push(state);
        i = i + 1;
    }
    trajectory
}

} // verus!
