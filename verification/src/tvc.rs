//! The default thrust-vector controller: the pitch program driving one PID
//! loop on the pitch error, and a second PID loop holding the cross-range
//! drift of the body axis at zero.

use vstd::prelude::*;

use crate::controller::Controller;
use crate::fixed::{fx_neg, fx_sub, sat64};
use crate::guidance::{guidance_pitch, spec_guidance_pitch};
use crate::mission::Mission;
use crate::pid::{spec_pid_integral, spec_pid_out, Pid};
use crate::state::{spec_pitch, GncCommand, State};
use crate::trig::{atan2_fx, spec_atan2};
use crate::vec3::Vec3;

verus! {

/// Guidance plus two independent PID loops, one per gimbal axis. The PID
/// accumulators persist across calls until `reset`, so one controller
/// instance must not be shared between concurrent runs.
#[derive(Debug, Clone, Copy, PartialEq, Eq, Structural)]
pub struct TvcController {
    pub pitch_pid: Pid,
    pub yaw_pid: Pid,
}

/// The pitch error fed to the pitch loop: commanded less current pitch.
pub open spec fn spec_pitch_error(s: State) -> int {
    sat64(spec_guidance_pitch(s) - spec_pitch(s))
}

/// The yaw error fed to the yaw loop: minus the azimuth of the body axis's
/// cross-range component, read at quaternion resolution.
pub open spec fn spec_yaw_error(s: State) -> int {
    let bz = crate::state::spec_body_z_fine(s.quat);
    let lat = crate::vec3::norm3_s(Vec3 { x: bz.1 as i64, y: bz.2 as i64, z: 0 });
    sat64(-spec_atan2(bz.0, lat))
}

impl TvcController {
    /// Gains tuned for a typical sounding rocket (inertia around 5 kg m^2,
    /// a one-metre nozzle arm).
    pub fn new() -> (r: TvcController)
        ensures
            r.pitch_pid == (Pid {
                kp: 2_000_000,
                ki: 100_000,
                kd: 500_000,
                integral: 0,
                prev_error: 0,
            }),
            r.yaw_pid == (Pid {
                kp: 2_000_000,
                ki: 100_000,
                kd: 500_000,
                integral: 0,
                prev_error: 0,
            }),
    {
        TvcController {
            pitch_pid: Pid::new(2_000_000, 100_000, 500_000),
            yaw_pid: Pid::new(2_000_000, 100_000, 500_000),
        }
    }

    /// One control update: run guidance, form the two axis errors, and let
    /// each PID loop produce its gimbal command. The commands are not
    /// clamped here; the force model clamps them to the stage's travel.
    pub fn update(&mut self, state: &State, mission: &Mission, dt: i64) -> (r: GncCommand)
        ensures
            r.gimbal_y as int == spec_pid_out(
                old(self).pitch_pid,
                spec_pitch_error(*state),
                dt as int,
            ),
            r.gimbal_z as int == spec_pid_out(
                old(self).yaw_pid,
                spec_yaw_error(*state),
                dt as int,
            ),
            final(self).pitch_pid.integral as int == spec_pid_integral(
                old(self).pitch_pid,
                spec_pitch_error(*state),
                dt as int,
            ),
            final(self).pitch_pid.prev_error as int == spec_pitch_error(*state),
            final(self).yaw_pid.integral as int == spec_pid_integral(
                old(self).yaw_pid,
                spec_yaw_error(*state),
                dt as int,
            ),
            final(self).yaw_pid.prev_error as int == spec_yaw_error(*state),
            final(self).pitch_pid.kp == old(self).pitch_pid.kp,
            final(self).pitch_pid.ki == old(self).pitch_pid.ki,
            final(self).pitch_pid.kd == old(self).pitch_pid.kd,
            final(self).yaw_pid.kp == old(self).yaw_pid.kp,
            final(self).yaw_pid.ki == old(self).yaw_pid.ki,
            final(self).yaw_pid.kd == old(self).yaw_pid.kd,
    {
        let desired_pitch: i64 = guidance_pitch(state, mission);
        let current_pitch: i64 = state.pitch();
        let pitch_error: i64 = fx_sub(desired_pitch, current_pitch);

        let up: Vec3 = Vec3 { x: 0, y: 0, z: crate::fixed::QSCALE };
        let bz: Vec3 = state.quat.rotate(&up);
        let lat: i64 = Vec3 { x: bz.y, y: bz.z, z: 0 }.norm();
        let yaw_error: i64 = fx_neg(atan2_fx(bz.x, lat));

        let gy: i64 = self.pitch_pid.update(pitch_error, dt);
        let gz: i64 = self.yaw_pid.update(yaw_error, dt);

        GncCommand { gimbal_y: gy, gimbal_z: gz }
    }

    /// Clear both PID accumulators.
    pub fn reset(&mut self)
        ensures
            final(self).pitch_pid.integral == 0,
            final(self).pitch_pid.prev_error == 0,
            final(self).yaw_pid.integral == 0,
            final(self).yaw_pid.prev_error == 0,
    {
        self.pitch_pid.reset();
        self.yaw_pid.reset();
    }
}

impl Controller for TvcController {
    fn control(&mut self, state: &State, mission: &Mission, dt: i64) -> GncCommand {
        self.update(state, mission, dt)
    }

    fn reset(&mut self) {
        TvcController::reset(self)
    }

    fn name(&self) -> &'static str {
        "TvcController"
    }
}

/// The historical name of the default controller.
pub type GncSystem = TvcController;

} // verus!
