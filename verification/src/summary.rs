//! Flight performance summary derived from a recorded trajectory.

use vstd::prelude::*;

use crate::atmosphere::{isa, spec_isa_sound, Atmo};
use crate::fixed::{fx_div, fx_max, fx_sub, fxdiv, sat64};
use crate::state::{State, G0};
use crate::vec3::{norm3_s, Vec3};

verus! {

/// Headline numbers of one flight, fixed scale.
#[derive(Debug, Clone, Copy, PartialEq, Eq, Structural)]
pub struct FlightSummary {
    /// Apogee altitude, m.
    pub apogee_m: i64,
    /// Time of apogee, s.
    pub apogee_time: i64,
    /// Largest speed over the flight, m/s.
    pub max_speed: i64,
    /// Largest Mach number (speed over local speed of sound).
    pub max_mach: i64,
    /// Largest acceleration magnitude (finite-difference between
    /// consecutive samples), m/s^2.
    pub max_accel: i64,
    /// The same in multiples of standard gravity.
    pub max_accel_g: i64,
    /// Total recorded flight time, s.
    pub flight_time: i64,
    /// Speed at the final sample, m/s.
    pub impact_speed: i64,
}

/// Speed of one sample.
pub open spec fn spec_speed_of(s: State) -> int {
    norm3_s(s.vel)
}

/// Mach number of one sample: speed over the local speed of sound.
pub open spec fn spec_mach_of(s: State) -> int {
    fxdiv(norm3_s(s.vel), spec_isa_sound(s.pos.z as int))
}

/// Finite-difference acceleration between two consecutive samples; zero
/// for a non-advancing clock.
pub open spec fn spec_pair_accel(a: State, b: State) -> int {
    let dt = sat64(b.time - a.time);
    if dt > 0 {
        let dv = Vec3 {
            x: sat64(b.vel.x - a.vel.x) as i64,
            y: sat64(b.vel.y - a.vel.y) as i64,
            z: sat64(b.vel.z - a.vel.z) as i64,
        };
        fxdiv(norm3_s(dv), dt)
    } else {
        0
    }
}

impl FlightSummary {
    /// Compute the summary of a non-empty trajectory: the (last) apogee
    /// sample and its time, the running maxima of speed, Mach number and
    /// finite-difference acceleration, the final time and the final speed.
    pub fn from_trajectory(trajectory: &Vec<State>) -> (r: FlightSummary)
        requires
            trajectory@.len() >= 1,
        ensures
            exists|k: int|
                0 <= k < trajectory@.len() && r.apogee_m == (#[trigger] trajectory@[k]).pos.z
                    && r.apogee_time == trajectory@[k].time,
            forall|j: int| 0 <= j < trajectory@.len() ==> (#[trigger] trajectory@[j]).pos.z
                <= r.apogee_m,
            exists|k: int|
                0 <= k < trajectory@.len() && r.max_speed as int == spec_speed_of(
                    #[trigger] trajectory@[k],
                ),
            forall|j: int|
                0 <= j < trajectory@.len() ==> spec_speed_of(#[trigger] trajectory@[j])
                    <= r.max_speed as int,
            exists|k: int|
                0 <= k < trajectory@.len() && r.max_mach as int == spec_mach_of(
                    #[trigger] trajectory@[k],
                ),
            forall|j: int|
                0 <= j < trajectory@.len() ==> spec_mach_of(#[trigger] trajectory@[j])
                    <= r.max_mach as int,
            trajectory@.len() == 1 ==> r.max_accel == 0,
            trajectory@.len() > 1 ==> exists|k: int|
                0 <= k < trajectory@.len() - 1 && r.max_accel as int == spec_pair_accel(
                    #[trigger] trajectory@[k],
                    trajectory@[k + 1],
                ),
            forall|j: int|
                0 <= j < trajectory@.len() - 1 ==> spec_pair_accel(
                    #[trigger] trajectory@[j],
                    trajectory@[j + 1],
                ) <= r.max_accel as int,
            r.max_accel_g as int == fxdiv(r.max_accel as int, G0 as int),
            r.flight_time == trajectory@[trajectory@.len() - 1].time,
            r.impact_speed as int == spec_speed_of(trajectory@[trajectory@.len() - 1]),
    {
        let n: usize = trajectory.len();

        let mut apogee_m: i64 = trajectory[0].pos.z;
        let mut apogee_time: i64 = trajectory[0].time;
        let mut i: usize = 1;
        while i < n
            invariant
                1 <= i <= n,
                n == trajectory@.len(),
                exists|k: int|
                    0 <= k < i && apogee_m == (#[trigger] trajectory@[k]).pos.z && apogee_time
                        == trajectory@[k].time,
                forall|j: int| 0 <= j < i ==> (#[trigger] trajectory@[j]).pos.z <= apogee_m,
            decreases n - i,
        {
            if trajectory[i].pos.z >= apogee_m {
                apogee_m = trajectory[i].pos.z;
                apogee_time = trajectory[i].time;
            }
            i = i + 1;
        }

        let mut max_speed: i64 = trajectory[0].vel.norm();
        let mut j: usize = 1;
        while j < n
            invariant
                1 <= j <= n,
                n == trajectory@.len(),
                exists|k: int|
                    0 <= k < j && max_speed as int == spec_speed_of(#[trigger] trajectory@[k]),
                forall|l: int|
                    0 <= l < j ==> spec_speed_of(#[trigger] trajectory@[l]) <= max_speed as int,
            decreases n - j,
        {
            let sp: i64 = trajectory[j].vel.norm();
            if sp > max_speed {
                max_speed = sp;
            }
            j = j + 1;
        }

        let a0: Atmo = isa(fx_max(trajectory[0].pos.z, 0));
        let s0: i64 = trajectory[0].vel.norm();
        let mut max_mach: i64 = fx_div(s0, a0.sound_speed);
        let mut m: usize = 1;
        while m < n
            invariant
                1 <= m <= n,
                n == trajectory@.len(),
                exists|k: int|
                    0 <= k < m && max_mach as int == spec_mach_of(#[trigger] trajectory@[k]),
                forall|l: int|
                    0 <= l < m ==> spec_mach_of(#[trigger] trajectory@[l]) <= max_mach as int,
            decreases n - m,
        {
            let am: Atmo = isa(fx_max(trajectory[m].pos.z, 0));
            let sm: i64 = trajectory[m].vel.norm();
            let mach: i64 = fx_div(sm, am.sound_speed);
            if mach > max_mach {
                max_mach = mach;
            }
            m = m + 1;
        }

        let mut max_accel: i64 = 0;
        let mut w: usize = 0;
        while w + 1 < n
            invariant
                0 <= w <= n - 1,
                n == trajectory@.len(),
                n >= 1,
                max_accel >= 0,
                w == 0 ==> max_accel == 0,
                w > 0 ==> exists|k: int|
                    0 <= k < w && max_accel as int == spec_pair_accel(
                        #[trigger] trajectory@[k],
                        trajectory@[k + 1],
                    ),
                forall|l: int|
                    0 <= l < w ==> spec_pair_accel(#[trigger] trajectory@[l], trajectory@[l + 1])
                        <= max_accel as int,
            decreases n - w,
        {
            let a: &State = &trajectory[w];
            let b: &State = &trajectory[w + 1];
            let dt: i64 = fx_sub(b.time, a.time);
            let acc: i64 = if dt > 0 {
                let dv: Vec3 = b.vel.minus(&a.vel);
                let dn: i64 = dv.norm();
                proof {
                    crate::fixed::lemma_fxdiv_sign(dn as int, dt as int);
                }
                fx_div(dn, dt)
            } else {
                0
            };
            if acc > max_accel {
                max_accel = acc;
            }
            w = w + 1;
        }

        let last: &State = &trajectory[n - 1];
        let impact_speed: i64 = last.vel.norm();

        FlightSummary {
            apogee_m,
            apogee_time,
            max_speed,
            max_mach,
            max_accel,
            max_accel_g: fx_div(max_accel, G0),
            flight_time: last.time,
            impact_speed,
        }
    }
}

} // verus!
