//! Discrete flight events and passive detectors over consecutive samples.

use vstd::prelude::*;

use crate::state::State;

verus! {

/// Kinds of simulation events.
#[derive(Debug, Clone, PartialEq)]
pub enum EventKind {
    Launch,
    Burnout { stage: usize },
    Staging { from: usize, to: usize },
    Apogee,
    Landing,
    Custom(String),
}

/// A discrete event that occurred during simulation.
#[derive(Debug, Clone)]
pub struct SimEvent {
    pub time: i64,
    pub kind: EventKind,
    pub state: State,
}

/// A passive event detector: inspects consecutive states and reports an
/// event when its condition crosses.
pub trait EventDetector {
    fn check(&mut self, prev: &State, current: &State) -> Option<EventKind>;
}

/// Reports `Apogee` when the vertical velocity changes sign from ascent to
/// descent above a 100 m altitude floor.
pub struct ApogeeDetector;

impl EventDetector for ApogeeDetector {
    fn check(&mut self, prev: &State, current: &State) -> Option<EventKind> {
        if prev.vel.z > 0 && current.vel.z <= 0 && current.pos.z > 100_000_000 {
            Some(EventKind::Apogee)
        } else {
            None
        }
    }
}

/// Fires once when the altitude crosses a threshold in the configured
/// direction.
pub struct AltitudeDetector {
    pub altitude: i64,
    pub ascending: bool,
    pub fired: bool,
}

impl AltitudeDetector {
    /// A detector that has not fired yet.
    pub fn new(altitude: i64, ascending: bool) -> (r: AltitudeDetector)
        ensures
            r.altitude == altitude,
            r.ascending == ascending,
            !r.fired,
    {
        AltitudeDetector { altitude, ascending, fired: false }
    }
}

impl EventDetector for AltitudeDetector {
    fn check(&mut self, prev: &State, current: &State) -> Option<EventKind> {
        if self.fired {
            return None;
        }
        let crossed: bool = if self.ascending {
            prev.pos.z < self.altitude && current.pos.z >= self.altitude
        } else {
            prev.pos.z > self.altitude && current.pos.z <= self.altitude
        };
        if crossed {
            self.fired = true;
            Some(EventKind::Custom("altitude threshold crossed".to_string()))
        } else {
            None
        }
    }
}

} // verus!
