//! A single-axis PID regulator with clamped integral state.

use vstd::prelude::*;

use crate::fixed::{clamp_s, fx_add, fx_clamp, fx_div, fx_mul, fx_sub, fxdiv, fxmul, sat64, SCALE};

verus! {

/// Proportional-integral-derivative controller state. The integral
/// accumulates `error * dt` and is clamped to `[-1, 1]` (anti-windup); the
/// derivative is the discrete error delta over the step.
#[derive(Debug, Clone, Copy, PartialEq, Eq, Structural)]
pub struct Pid {
    pub kp: i64,
    pub ki: i64,
    pub kd: i64,
    pub integral: i64,
    pub prev_error: i64,
}

/// The integral accumulator after one update.
pub open spec fn spec_pid_integral(p: Pid, error: int, dt: int) -> int {
    clamp_s(sat64(p.integral + fxmul(error, dt)), -(SCALE as int), SCALE as int)
}

/// The derivative term of one update.
pub open spec fn spec_pid_deriv(p: Pid, error: int, dt: int) -> int {
    if dt > 0 {
        fxdiv(sat64(error - p.prev_error), dt)
    } else {
        0
    }
}

/// The output of one update: `kp e + ki I + kd d`.
pub open spec fn spec_pid_out(p: Pid, error: int, dt: int) -> int {
    sat64(
        sat64(fxmul(p.kp as int, error) + fxmul(p.ki as int, spec_pid_integral(p, error, dt)))
            + fxmul(p.kd as int, spec_pid_deriv(p, error, dt)),
    )
}

impl Pid {
    /// A fresh regulator with the given gains and cleared state.
    pub fn new(kp: i64, ki: i64, kd: i64) -> (r: Pid)
        ensures
            r == (Pid { kp, ki, kd, integral: 0, prev_error: 0 }),
    {
        Pid { kp, ki, kd, integral: 0, prev_error: 0 }
    }

    /// One control update. A pure-proportional regulator returns exactly
    /// `kp * error`; an integral-only one returns `ki` times the clamped
    /// accumulated `error * dt`.
    pub fn update(&mut self, error: i64, dt: i64) -> (out: i64)
        ensures
            final(self).kp == old(self).kp,
            final(self).ki == old(self).ki,
            final(self).kd == old(self).kd,
            final(self).integral as int == spec_pid_integral(*old(self), error as int, dt as int),
            final(self).prev_error == error,
            out as int == spec_pid_out(*old(self), error as int, dt as int),
            old(self).ki == 0 && old(self).kd == 0 ==> out as int == fxmul(
                old(self).kp as int,
                error as int,
            ),
            old(self).kp == 0 && old(self).kd == 0 ==> out as int == fxmul(
                old(self).ki as int,
                spec_pid_integral(*old(self), error as int, dt as int),
            ),
    {
        let acc: i64 = fx_clamp(fx_add(self.integral, fx_mul(error, dt)), -SCALE, SCALE);
        self.integral = acc;
        let derivative: i64 = if dt > 0 {
            fx_div(fx_sub(error, self.prev_error), dt)
        } else {
            0
        };
        self.prev_error = error;
        let out: i64 = fx_add(
            fx_add(fx_mul(self.kp, error), fx_mul(self.ki, acc)),
            fx_mul(self.kd, derivative),
        );
        proof {
            crate::fixed::lemma_fxmul_sign(0, error as int);
            crate::fixed::lemma_fxmul_sign(0, acc as int);
            crate::fixed::lemma_fxmul_sign(0, derivative as int);
        }
        out
    }

    /// Clear the accumulated state, keeping the gains.
    pub fn reset(&mut self)
        ensures
            final(self).kp == old(self).kp,
            final(self).ki == old(self).ki,
            final(self).kd == old(self).kd,
            final(self).integral == 0,
            final(self).prev_error == 0,
    {
        self.integral = 0;
        self.prev_error = 0;
    }
}

} // verus!
