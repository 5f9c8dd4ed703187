//! The control capability the simulation loop closes around.

use vstd::prelude::*;

use crate::mission::Mission;
use crate::state::{GncCommand, State};

verus! {

/// A flight controller: anything that can turn the current state and the
/// mission definition into a gimbal command, once per outer step. Custom
/// control laws (bang-bang, open-loop profiles, external policies) plug
/// into the simulation loop through this trait.
pub trait Controller {
    /// Compute the gimbal command for this step.
    fn control(&mut self, state: &State, mission: &Mission, dt: i64) -> GncCommand;

    /// Clear any internal state (PID accumulators and the like).
    fn reset(&mut self);

    /// A short human-readable name for diagnostics.
    fn name(&self) -> &'static str;
}

} // verus!
