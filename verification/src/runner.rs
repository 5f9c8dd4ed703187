//! The outer simulation loop: controller, integrator, staging, ground
//! detection, sample recording.
//!
//! `simulate_with` proves the run-level invariants over the whole recorded
//! trajectory: every sample keeps its attitude unit to within the fixed
//! tolerance, mass is never negative and never increases from one sample
//! to the next, and the stage index never decreases and never leaves the
//! mission's range.

use vstd::prelude::*;

use crate::controller::Controller;
use crate::fixed::{fx_max, fx_sub, sat64, SCALE};
use crate::integrator::rk4_step;
use crate::mission::{spec_mass_sum, spec_mission_wf, Mission};
use crate::quat::{unitish, Quat};
use crate::sixdof::spec_remaining_prop;
use crate::stage::spec_stage_wf;
use crate::state::{spec_config_wf, GncCommand, SimConfig, State};
use crate::vec3::Vec3;

verus! {

/// The staging rule fires: a stage is active, at most 0.01 kg of its
/// propellant remains, and a next stage exists to hand over to.
pub open spec fn spec_staging_fires(s: State, m: Mission) -> bool {
    &&& s.stage_idx < m.stages@.len()
    &&& spec_remaining_prop(s, m) <= 10_000
    &&& s.stage_idx + 1 < m.stages@.len()
}

/// The state at ignition: clock zero, at the pad, level, full wet mass,
/// first stage active.
pub open spec fn spec_ignition_state(m: Mission) -> State {
    State {
        time: 0,
        pos: Vec3 { x: 0, y: 0, z: 0 },
        vel: Vec3 { x: 0, y: 0, z: 0 },
        quat: Quat { w: crate::fixed::QSCALE, x: 0, y: 0, z: 0 },
        omega: Vec3 { x: 0, y: 0, z: 0 },
        mass: spec_mass_sum(m.stages@, 0, m.stages@.len() as int) as i64,
        stage_idx: 0,
    }
}

/// The wet-mass sum of well-formed stages is never negative.
proof fn lemma_mass_sum_nonneg(s: Seq<crate::stage::Stage>, lo: int, hi: int)
    requires
        0 <= lo,
        forall|i: int| 0 <= i < s.len() ==> spec_stage_wf(#[trigger] s[i]),
    ensures
        spec_mass_sum(s, lo, hi) >= 0,
    decreases hi - lo,
{
    if hi <= lo || hi > s.len() {
    } else {
        lemma_mass_sum_nonneg(s, lo, hi - 1);
    }
}

/// Detect exhaustion of the active stage and, if a next stage exists,
/// jettison the spent structure and advance the index. The transition is
/// one-way: the index never decreases, never skips, and never leaves the
/// stage list; mass never increases.
pub fn check_staging(state: &mut State, mission: &Mission)
    ensures
        final(state).time == old(state).time,
        final(state).pos == old(state).pos,
        final(state).vel == old(state).vel,
        final(state).quat == old(state).quat,
        final(state).omega == old(state).omega,
        final(state).stage_idx >= old(state).stage_idx,
        final(state).stage_idx <= old(state).stage_idx + 1,
        old(state).stage_idx < mission.stages@.len() ==> final(state).stage_idx
            < mission.stages@.len(),
        spec_staging_fires(*old(state), *mission) ==> {
            &&& final(state).stage_idx == old(state).stage_idx + 1
            &&& final(state).mass as int == if sat64(
                old(state).mass - mission.stages@[old(state).stage_idx as int].dry_mass,
            ) >= 0 {
                sat64(old(state).mass - mission.stages@[old(state).stage_idx as int].dry_mass)
            } else {
                0
            }
        },
        !spec_staging_fires(*old(state), *mission) ==> *final(state) == *old(state),
        spec_mission_wf(*mission) && old(state).mass >= 0 ==> final(state).mass <= old(state).mass,
        old(state).mass >= 0 ==> final(state).mass >= 0,
{
    if state.stage_idx >= mission.stages.len() {
        return ;
    }
    let dry: i64 = mission.stages[state.stage_idx].dry_mass;
    let upper: i64 = mission.upper_stages_mass(state.stage_idx);
    let remaining: i64 = fx_sub(fx_sub(state.mass, dry), upper);

    if remaining <= 10_000 && state.stage_idx + 1 < mission.stages.len() {
        state.mass = fx_max(fx_sub(state.mass, dry), 0);
        state.stage_idx = state.stage_idx + 1;
    }
}

/// Simulate a complete mission with a caller-supplied controller.
///
/// Returns the trajectory and the command history, sample-for-sample: both
/// begin with the ignition state and the neutral command, and afterwards
/// hold one entry per integration step. The run stops at the time limit,
/// or earlier when the vehicle has been above one metre and returns to the
/// ground, in which case the final altitude is clamped to exactly zero.
/// Every recorded sample satisfies the flight invariants: unit attitude,
/// non-negative and non-increasing mass, monotone in-range stage index.
pub fn simulate_with<C: Controller>(mission: &Mission, config: &SimConfig, controller: &mut C) -> (r:
    (Vec<State>, Vec<GncCommand>))
    requires
        spec_mission_wf(*mission),
        spec_config_wf(*config),
    ensures
        r.0@.len() == r.1@.len(),
        r.0@.len() >= 1,
        r.0@[0] == spec_ignition_state(*mission),
        r.1@[0] == (GncCommand { gimbal_y: 0, gimbal_z: 0 }),
        forall|i: int| 0 <= i < r.0@.len() ==> (#[trigger] r.0@[i]).mass >= 0,
        forall|i: int| 0 <= i < r.0@.len() ==> unitish((#[trigger] r.0@[i]).quat),
        forall|i: int|
            0 <= i < r.0@.len() ==> (#[trigger] r.0@[i]).stage_idx < mission.stages@.len(),
        forall|i: int|
            0 <= i < r.0@.len() - 1 ==> (#[trigger] r.0@[i + 1]).mass <= r.0@[i].mass,
        forall|i: int|
            0 <= i < r.0@.len() - 1 ==> (#[trigger] r.0@[i + 1]).stage_idx >= r.0@[i].stage_idx,
        r.0@[r.0@.len() - 1].time >= config.max_time || r.0@[r.0@.len() - 1].pos.z == 0,
{
    let total: i64 = mission.total_mass();
    proof {
        lemma_mass_sum_nonneg(mission.stages@, 0, mission.stages@.len() as int);
        assert(unitish(Quat { w: crate::fixed::QSCALE, x: 0, y: 0, z: 0 })) by (nonlinear_arith);
    }
    let mut state: State = State {
        time: 0,
        pos: Vec3 { x: 0, y: 0, z: 0 },
        vel: Vec3 { x: 0, y: 0, z: 0 },
        quat: Quat { w: crate::fixed::QSCALE, x: 0, y: 0, z: 0 },
        omega: Vec3 { x: 0, y: 0, z: 0 },
        mass: total,
        stage_idx: 0,
    };
    let mut trajectory: Vec<State> = Vec::new();
    let mut commands: Vec<GncCommand> = Vec::new();
    trajectory.push(state);
    commands.push(GncCommand { gimbal_y: 0, gimbal_z: 0 });

    let mut launched: bool = false;
    let mut done: bool = false;

    while !done && state.time < config.max_time
        invariant
            spec_mission_wf(*mission),
            spec_config_wf(*config),
            trajectory@.len() == commands@.len(),
            trajectory@.len() >= 1,
            trajectory@[0] == spec_ignition_state(*mission),
            commands@[0] == (GncCommand { gimbal_y: 0, gimbal_z: 0 }),
            state == trajectory@[trajectory@.len() - 1],
            state.time >= 0,
            done ==> state.pos.z == 0,
            forall|i: int|
                0 <= i < trajectory@.len() ==> (#[trigger] trajectory@[i]).mass >= 0,
            forall|i: int|
                0 <= i < trajectory@.len() ==> unitish((#[trigger] trajectory@[i]).quat),
            forall|i: int|
                0 <= i < trajectory@.len() ==> (#[trigger] trajectory@[i]).stage_idx
                    < mission.stages@.len(),
            forall|i: int|
                0 <= i < trajectory@.len() - 1 ==> (#[trigger] trajectory@[i + 1]).mass
                    <= trajectory@[i].mass,
            forall|i: int|
                0 <= i < trajectory@.len() - 1 ==> (#[trigger] trajectory@[i + 1]).stage_idx
                    >= trajectory@[i].stage_idx,
        decreases (if done {
            0int
        } else if state.time >= config.max_time {
            1int
        } else {
            config.max_time - state.time + 2
        }),
    {
        let prev: Ghost<State> = Ghost(state);
        let cmd: GncCommand = controller.control(&state, mission, config.dt);

        state = rk4_step(&state, mission, &cmd, config.dt);
        check_staging(&mut state, mission);

        if state.pos.z > SCALE {
            launched = true;
        }
        if launched && state.pos.z <= 0 {
            state = State { pos: Vec3 { x: state.pos.x, y: state.pos.y, z: 0 }, ..state };
            done = true;
        }

        trajectory.push(state);
        commands.push(cmd);

        proof {
            assert(state.mass <= prev@.mass);
            assert(state.stage_idx >= prev@.stage_idx);
            assert(state.time > prev@.time);
        }
    }

    (trajectory, commands)
}

/// Simulate with the default thrust-vector controller.
pub fn simulate(mission: &Mission, config: &SimConfig) -> (r: (Vec<State>, Vec<GncCommand>))
    requires
        spec_mission_wf(*mission),
        spec_config_wf(*config),
    ensures
        r.0@.len() == r.1@.len(),
        r.0@.len() >= 1,
        r.0@[0] == spec_ignition_state(*mission),
        r.1@[0] == (GncCommand { gimbal_y: 0, gimbal_z: 0 }),
        forall|i: int| 0 <= i < r.0@.len() ==> (#[trigger] r.0@[i]).mass >= 0,
        forall|i: int| 0 <= i < r.0@.len() ==> unitish((#[trigger] r.0@[i]).quat),
        forall|i: int|
            0 <= i < r.0@.len() ==> (#[trigger] r.0@[i]).stage_idx < mission.stages@.len(),
        forall|i: int|
            0 <= i < r.0@.len() - 1 ==> (#[trigger] r.0@[i + 1]).mass <= r.0@[i].mass,
        forall|i: int|
            0 <= i < r.0@.len() - 1 ==> (#[trigger] r.0@[i + 1]).stage_idx >= r.0@[i].stage_idx,
        r.0@[r.0@.len() - 1].time >= config.max_time || r.0@[r.0@.len() - 1].pos.z == 0,
{
    let mut controller: crate::tvc::TvcController = crate::tvc::TvcController::new();
    simulate_with(mission, config, &mut controller)
}

} // verus!
