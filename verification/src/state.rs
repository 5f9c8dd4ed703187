//! The six-degree-of-freedom simulation state and its companions.

use vstd::prelude::*;

use crate::fixed::{
    clamp_s, fx_add, fx_clamp, fx_div, fx_max, fx_mul, fxdiv, fxmul, lemma_fxmul_sign, sat64,
    QSCALE, SCALE,
};
use crate::mission::ConfigError;
use crate::quat::{qc, rot_x_of, rot_y_of, rot_z_of, Quat};
use crate::trig::{acos_fx, atan2_fx, spec_acos, spec_atan2};
use crate::vec3::{dot3_s, norm3_s, Vec3};

verus! {

/// Standard surface gravity, m/s^2 at fixed scale.
pub const G0: i64 = 9_806_650;

/// Mean Earth radius, m at fixed scale.
pub const EARTH_RADIUS: i64 = 6_371_000_000_000;

/// Largest admissible simulated time span (one million seconds), so that
/// advancing the clock never saturates.
pub const MAX_SIM_TIME: i64 = 1_000_000_000_000;

/// Full 6DOF state at one instant. Frame: East-North-Up, origin at the
/// launch site; the quaternion maps body to inertial axes.
#[derive(Clone, Copy, Debug, PartialEq, Eq, Structural)]
pub struct State {
    /// Seconds since ignition.
    pub time: i64,
    /// Position, metres.
    pub pos: Vec3,
    /// Velocity, metres per second.
    pub vel: Vec3,
    /// Body-to-inertial attitude.
    pub quat: Quat,
    /// Body-frame angular velocity, radians per second.
    pub omega: Vec3,
    /// Vehicle mass, kilograms.
    pub mass: i64,
    /// Index of the active stage.
    pub stage_idx: usize,
}

/// Time derivative of the state. The quaternion rate is deliberately raw
/// (not unit); normalisation happens only after a full integration step.
#[derive(Clone, Copy, Debug)]
pub struct Deriv {
    pub dpos: Vec3,
    pub dvel: Vec3,
    pub dquat: Quat,
    pub domega: Vec3,
    pub dmass: i64,
}

/// Gimbal command issued by the controller: thrust-vector deflections about
/// the body y (pitch) and z (yaw) axes, radians.
#[derive(Clone, Copy, Debug, PartialEq, Eq, Structural)]
pub struct GncCommand {
    pub gimbal_y: i64,
    pub gimbal_z: i64,
}

impl Default for GncCommand {
    /// The neutral command: no deflection.
    fn default() -> (r: GncCommand)
        ensures
            r == (GncCommand { gimbal_y: 0, gimbal_z: 0 }),
    {
        GncCommand { gimbal_y: 0, gimbal_z: 0 }
    }
}

/// Fixed-step simulation configuration.
#[derive(Clone, Copy, Debug, PartialEq, Eq, Structural)]
pub struct SimConfig {
    /// Integration timestep, seconds.
    pub dt: i64,
    /// Hard stop, seconds.
    pub max_time: i64,
}

/// The configuration admits a terminating, non-saturating run.
pub open spec fn spec_config_wf(c: SimConfig) -> bool {
    &&& 0 < c.dt
    &&& 0 <= c.max_time <= MAX_SIM_TIME as int
}

impl Default for SimConfig {
    /// 200 Hz for ten minutes: the step a 6DOF vehicle needs.
    fn default() -> (r: SimConfig)
        ensures
            r == (SimConfig { dt: 5_000, max_time: 600_000_000 }),
            spec_config_wf(r),
    {
        SimConfig { dt: 5_000, max_time: 600_000_000 }
    }
}

impl SimConfig {
    /// Reject configurations on which the stepping loop would not behave:
    /// `Ok` exactly when the timestep is positive and the time limit lies in
    /// `[0, MAX_SIM_TIME]`.
    pub fn validate(&self) -> (r: Result<(), ConfigError>)
        ensures
            r is Ok <==> spec_config_wf(*self),
            self.dt <= 0 ==> r == Result::<(), ConfigError>::Err(ConfigError::NonPositiveTimestep),
            self.dt > 0 && !(0 <= self.max_time <= MAX_SIM_TIME as int) ==> r == Result::<
                (),
                ConfigError,
            >::Err(ConfigError::InvalidMaxTime),
    {
        if self.dt <= 0 {
            Err(ConfigError::NonPositiveTimestep)
        } else if self.max_time < 0 || self.max_time > MAX_SIM_TIME {
            Err(ConfigError::InvalidMaxTime)
        } else {
            Ok(())
        }
    }
}

/// z component of the body +Z axis expressed in the inertial frame.
pub open spec fn spec_body_z_z(q: Quat) -> int {
    rot_z_of(
        qc(q.w as int),
        qc(q.x as int),
        qc(q.y as int),
        qc(q.z as int),
        Vec3 { x: 0, y: 0, z: SCALE },
    )
}

/// The body +Z axis at quaternion resolution (finer than the general
/// scale, so that angles read from it near the vertical stay smooth).
pub open spec fn spec_body_z_fine(q: Quat) -> (int, int, int) {
    let up = Vec3 { x: 0, y: 0, z: QSCALE };
    (
        rot_x_of(qc(q.w as int), qc(q.x as int), qc(q.y as int), qc(q.z as int), up),
        rot_y_of(qc(q.w as int), qc(q.x as int), qc(q.y as int), qc(q.z as int), up),
        rot_z_of(qc(q.w as int), qc(q.x as int), qc(q.y as int), qc(q.z as int), up),
    )
}

/// Pitch angle above the horizon, derived from the attitude: the
/// arctangent of the body axis's vertical component over its horizontal
/// magnitude.
pub open spec fn spec_pitch(s: State) -> int {
    let bz = spec_body_z_fine(s.quat);
    let lat = norm3_s(Vec3 { x: bz.0 as i64, y: bz.1 as i64, z: 0 });
    spec_atan2(bz.2, lat)
}

/// Angle of attack: the angle between the velocity and the body +Z axis,
/// zero below a 1 m/s speed floor.
pub open spec fn spec_alpha(s: State) -> int {
    let speed = norm3_s(s.vel);
    if speed < SCALE as int {
        0
    } else {
        let bz = Vec3 { x: 0, y: 0, z: SCALE };
        let bzx = rot_x_of(qc(s.quat.w as int), qc(s.quat.x as int), qc(s.quat.y as int), qc(s.quat.z as int), bz);
        let bzy = rot_y_of(qc(s.quat.w as int), qc(s.quat.x as int), qc(s.quat.y as int), qc(s.quat.z as int), bz);
        let bzz = spec_body_z_z(s.quat);
        let ca = clamp_s(
            fxdiv(
                dot3_s(s.vel, Vec3 { x: bzx as i64, y: bzy as i64, z: bzz as i64 }),
                speed,
            ),
            -(SCALE as int),
            SCALE as int,
        );
        spec_acos(ca)
    }
}

impl State {
    /// Advance every field by `d` scaled by `dt` (the Euler substep used
    /// inside the Runge-Kutta stages). Mass is floored at zero; the
    /// quaternion is left raw.
    pub fn apply(&self, d: &Deriv, dt: i64) -> (r: State)
        ensures
            r.time as int == sat64(self.time + dt),
            r.pos.x as int == sat64(self.pos.x + fxmul(d.dpos.x as int, dt as int)),
            r.pos.y as int == sat64(self.pos.y + fxmul(d.dpos.y as int, dt as int)),
            r.pos.z as int == sat64(self.pos.z + fxmul(d.dpos.z as int, dt as int)),
            r.vel.x as int == sat64(self.vel.x + fxmul(d.dvel.x as int, dt as int)),
            r.vel.y as int == sat64(self.vel.y + fxmul(d.dvel.y as int, dt as int)),
            r.vel.z as int == sat64(self.vel.z + fxmul(d.dvel.z as int, dt as int)),
            r.quat.w as int == sat64(self.quat.w + fxmul(d.dquat.w as int, dt as int)),
            r.quat.x as int == sat64(self.quat.x + fxmul(d.dquat.x as int, dt as int)),
            r.quat.y as int == sat64(self.quat.y + fxmul(d.dquat.y as int, dt as int)),
            r.quat.z as int == sat64(self.quat.z + fxmul(d.dquat.z as int, dt as int)),
            r.omega.x as int == sat64(self.omega.x + fxmul(d.domega.x as int, dt as int)),
            r.omega.y as int == sat64(self.omega.y + fxmul(d.domega.y as int, dt as int)),
            r.omega.z as int == sat64(self.omega.z + fxmul(d.domega.z as int, dt as int)),
            r.mass as int == if sat64(self.mass + fxmul(d.dmass as int, dt as int)) >= 0 {
                sat64(self.mass + fxmul(d.dmass as int, dt as int))
            } else {
                0
            },
            r.stage_idx == self.stage_idx,
            r.mass >= 0,
            d.dmass <= 0 && dt >= 0 && self.mass >= 0 ==> r.mass <= self.mass,
            d.dmass == 0 && self.mass >= 0 ==> r.mass == self.mass,
    {
        proof {
            lemma_fxmul_sign(d.dmass as int, dt as int);
        }
        State {
            time: fx_add(self.time, dt),
            pos: self.pos.plus(&d.dpos.scale(dt)),
            vel: self.vel.plus(&d.dvel.scale(dt)),
            quat: Quat {
                w: fx_add(self.quat.w, fx_mul(d.dquat.w, dt)),
                x: fx_add(self.quat.x, fx_mul(d.dquat.x, dt)),
                y: fx_add(self.quat.y, fx_mul(d.dquat.y, dt)),
                z: fx_add(self.quat.z, fx_mul(d.dquat.z, dt)),
            },
            omega: self.omega.plus(&d.domega.scale(dt)),
            mass: fx_max(fx_add(self.mass, fx_mul(d.dmass, dt)), 0),
            stage_idx: self.stage_idx,
        }
    }

    /// Body +Z axis (the thrust axis) in the inertial frame.
    pub fn body_z(&self) -> (r: Vec3)
        ensures
            r.x as int == rot_x_of(
                qc(self.quat.w as int),
                qc(self.quat.x as int),
                qc(self.quat.y as int),
                qc(self.quat.z as int),
                Vec3 { x: 0, y: 0, z: SCALE },
            ),
            r.y as int == rot_y_of(
                qc(self.quat.w as int),
                qc(self.quat.x as int),
                qc(self.quat.y as int),
                qc(self.quat.z as int),
                Vec3 { x: 0, y: 0, z: SCALE },
            ),
            r.z as int == spec_body_z_z(self.quat),
    {
        let up: Vec3 = Vec3 { x: 0, y: 0, z: SCALE };
        self.quat.rotate(&up)
    }

    /// Pitch angle from local horizontal, radians; positive is nose up.
    pub fn pitch(&self) -> (r: i64)
        ensures
            r as int == spec_pitch(*self),
    {
        let up: Vec3 = Vec3 { x: 0, y: 0, z: QSCALE };
        let bz: Vec3 = self.quat.rotate(&up);
        let lat: i64 = Vec3 { x: bz.x, y: bz.y, z: 0 }.norm();
        atan2_fx(bz.z, lat)
    }

    /// Angle of attack, radians: between velocity and the body +Z axis.
    pub fn alpha(&self) -> (r: i64)
        ensures
            r as int == spec_alpha(*self),
    {
        let speed: i64 = self.vel.norm();
        if speed < SCALE {
            0
        } else {
            let bz: Vec3 = self.body_z();
            let ca: i64 = fx_clamp(fx_div(self.vel.dot(&bz), speed), -SCALE, SCALE);
            acos_fx(ca)
        }
    }
}

} // verus!
