//! A mission: an ordered, non-empty sequence of stages, with the derived
//! mass and delta-v bookkeeping and fail-fast configuration validation.

use vstd::prelude::*;

use crate::fixed::{fx_add, sat64};
use crate::stage::{spec_stage_dv, spec_stage_wf, spec_total_mass, Stage};

verus! {

/// A rejected configuration, reported by `Mission::validate` and
/// `SimConfig::validate` before any stepping begins.
#[derive(Debug, Clone, Copy, PartialEq, Eq, Structural)]
pub enum ConfigError {
    /// The mission holds no stages at all.
    EmptyMission,
    /// A stage's structural mass is zero or negative.
    NonPositiveDryMass,
    /// A stage's propellant load is negative.
    NegativePropellantMass,
    /// A stage's rated thrust is negative.
    NegativeThrust,
    /// A stage's specific impulse is zero or negative.
    NonPositiveIsp,
    /// A stage's drag coefficient or reference area is negative.
    NegativeAero,
    /// A principal moment of inertia is zero or negative.
    NonPositiveInertia,
    /// A stage's maximum gimbal travel is negative.
    NegativeGimbalLimit,
    /// The integration timestep is zero or negative.
    NonPositiveTimestep,
    /// The time limit is negative or beyond the supported span.
    InvalidMaxTime,
}

/// An ordered stage list plus a name; immutable during a run.
#[derive(Debug, Clone)]
pub struct Mission {
    pub name: String,
    pub stages: Vec<Stage>,
}

/// Saturating left-to-right sum of the wet masses of `stages[lo..hi]`.
pub open spec fn spec_mass_sum(s: Seq<Stage>, lo: int, hi: int) -> int
    decreases hi - lo,
{
    if hi <= lo || hi > s.len() {
        0
    } else {
        sat64(spec_mass_sum(s, lo, hi - 1) + spec_total_mass(s[hi - 1]))
    }
}

/// Saturating sum of the first `i` stages' ideal delta-v, each carrying the
/// stages above it as payload.
pub open spec fn spec_dv_sum(s: Seq<Stage>, i: int) -> int
    decreases i,
{
    if i <= 0 || i > s.len() {
        0
    } else {
        sat64(spec_dv_sum(s, i - 1) + spec_stage_dv(s[i - 1], spec_mass_sum(s, i, s.len() as int)))
    }
}

/// What a simulation run relies on: at least one stage, every stage
/// well-formed.
pub open spec fn spec_mission_wf(m: Mission) -> bool {
    &&& m.stages@.len() >= 1
    &&& forall|i: int| 0 <= i < m.stages@.len() ==> spec_stage_wf(#[trigger] m.stages@[i])
}

/// The first configuration fault of one stage, in a fixed order of checks.
pub open spec fn spec_stage_err(st: Stage) -> Option<ConfigError> {
    if st.dry_mass <= 0 {
        Some(ConfigError::NonPositiveDryMass)
    } else if st.propellant_mass < 0 {
        Some(ConfigError::NegativePropellantMass)
    } else if st.thrust < 0 {
        Some(ConfigError::NegativeThrust)
    } else if st.isp <= 0 {
        Some(ConfigError::NonPositiveIsp)
    } else if st.cd < 0 || st.area < 0 {
        Some(ConfigError::NegativeAero)
    } else if st.inertia.x <= 0 || st.inertia.y <= 0 || st.inertia.z <= 0 {
        Some(ConfigError::NonPositiveInertia)
    } else if st.tvc_max < 0 {
        Some(ConfigError::NegativeGimbalLimit)
    } else {
        None
    }
}

/// The first fault among `stages[i..]`.
pub open spec fn spec_validate_from(s: Seq<Stage>, i: int) -> Result<(), ConfigError>
    decreases s.len() - i,
{
    if i < 0 || i >= s.len() {
        Ok(())
    } else {
        match spec_stage_err(s[i]) {
            Some(e) => Err(e),
            None => spec_validate_from(s, i + 1),
        }
    }
}

/// The outcome of validating a mission: `EmptyMission`, or the first
/// stage fault in check order.
pub open spec fn spec_validate(m: Mission) -> Result<(), ConfigError> {
    if m.stages@.len() == 0 {
        Err(ConfigError::EmptyMission)
    } else {
        spec_validate_from(m.stages@, 0)
    }
}

impl Mission {
    /// Total wet mass of all stages, kg.
    pub fn total_mass(&self) -> (r: i64)
        ensures
            r as int == spec_mass_sum(self.stages@, 0, self.stages@.len() as int),
    {
        let mut acc: i64 = 0;
        let mut i: usize = 0;
        let n: usize = self.stages.len();
        while i < n
            invariant
                0 <= i <= n,
                n == self.stages@.len(),
                acc as int == spec_mass_sum(self.stages@, 0, i as int),
            decreases n - i,
        {
            let t: i64 = self.stages[i].total_mass();
            acc = fx_add(acc, t);
            i = i + 1;
        }
        acc
    }

    /// Combined wet mass of the stages strictly above `idx`, kg.
    pub fn upper_stages_mass(&self, idx: usize) -> (r: i64)
        ensures
            r as int == spec_mass_sum(self.stages@, idx + 1, self.stages@.len() as int),
    {
        let n: usize = self.stages.len();
        if idx >= n {
            return 0;
        }
        let mut acc: i64 = 0;
        let mut i: usize = idx + 1;
        while i < n
            invariant
                idx + 1 <= i <= n,
                n == self.stages@.len(),
                acc as int == spec_mass_sum(self.stages@, idx + 1, i as int),
            decreases n - i,
        {
            let t: i64 = self.stages[i].total_mass();
            acc = fx_add(acc, t);
            i = i + 1;
        }
        acc
    }

    /// Total ideal delta-v, each stage carrying the stages above it, m/s.
    pub fn total_delta_v(&self) -> (r: i64)
        ensures
            r as int == spec_dv_sum(self.stages@, self.stages@.len() as int),
    {
        let mut acc: i64 = 0;
        let mut i: usize = 0;
        let n: usize = self.stages.len();
        while i < n
            invariant
                0 <= i <= n,
                n == self.stages@.len(),
                acc as int == spec_dv_sum(self.stages@, i as int),
            decreases n - i,
        {
            let payload: i64 = self.upper_stages_mass(i);
            let dv: i64 = self.stages[i].delta_v(payload);
            acc = fx_add(acc, dv);
            i = i + 1;
        }
        acc
    }

    /// The stage a given index names, if any.
    pub fn active_stage(&self, idx: usize) -> (r: Option<&Stage>)
        ensures
            r is Some <==> idx < self.stages@.len(),
            r matches Some(st) ==> *st == self.stages@[idx as int],
    {
        if idx < self.stages.len() {
            Some(&self.stages[idx])
        } else {
            None
        }
    }

    /// Fail fast on a degenerate configuration, as the error design asks:
    /// `Ok` exactly when the mission is non-empty and every stage is
    /// well-formed; otherwise the first fault in check order.
    pub fn validate(&self) -> (r: Result<(), ConfigError>)
        ensures
            r == spec_validate(*self),
            r is Ok <==> spec_mission_wf(*self),
    {
        let n: usize = self.stages.len();
        if n == 0 {
            return Err(ConfigError::EmptyMission);
        }
        let mut i: usize = 0;
        while i < n
            invariant
                0 <= i <= n,
                n == self.stages@.len(),
                spec_validate_from(self.stages@, 0) == spec_validate_from(self.stages@, i as int),
                forall|j: int| 0 <= j < i ==> spec_stage_wf(#[trigger] self.stages@[j]),
            decreases n - i,
        {
            let st: &Stage = &self.stages[i];
            if st.dry_mass <= 0 {
                return Err(ConfigError::NonPositiveDryMass);
            }
            if st.propellant_mass < 0 {
                return Err(ConfigError::NegativePropellantMass);
            }
            if st.thrust < 0 {
                return Err(ConfigError::NegativeThrust);
            }
            if st.isp <= 0 {
                return Err(ConfigError::NonPositiveIsp);
            }
            if st.cd < 0 || st.area < 0 {
                return Err(ConfigError::NegativeAero);
            }
            if st.inertia.x <= 0 || st.inertia.y <= 0 || st.inertia.z <= 0 {
                return Err(ConfigError::NonPositiveInertia);
            }
            if st.tvc_max < 0 {
                return Err(ConfigError::NegativeGimbalLimit);
            }
            proof {
                assert(spec_stage_err(self.stages@[i as int]) is None);
            }
            i = i + 1;
        }
        Ok(())
    }
}

/// Step-wise assembly of a mission.
pub struct MissionBuilder {
    pub name: String,
    pub stages: Vec<Stage>,
}

impl MissionBuilder {
    /// An empty mission under construction.
    pub fn new(name: String) -> (r: MissionBuilder)
        ensures
            r.name == name,
            r.stages@.len() == 0,
    {
        MissionBuilder { name, stages: Vec::new() }
    }

    /// Append one stage.
    pub fn stage(self, stage: Stage) -> (r: Self)
        ensures
            r.name == self.name,
            r.stages@ == self.stages@.push(stage),
    {
        let mut s = self;
        s.stages.push(stage);
        s
    }

    /// Finish: the mission holds exactly the appended stages, in order.
    pub fn build(self) -> (r: Mission)
        ensures
            r.name == self.name,
            r.stages@ == self.stages@,
    {
        Mission { name: self.name, stages: self.stages }
    }
}

} // verus!
