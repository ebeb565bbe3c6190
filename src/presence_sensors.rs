//! Presence events from the on-board motion sensors, with the "edge-triggered
//! clear" policy: every level change of a sensor is reported as it is.

use crate::buttons::Level;
use crate::presence::Presence;
use vstd::prelude::*;

verus! {

/// The on-board motion sensors.
#[derive(Clone, Copy, Debug, PartialEq, Eq, Structural)]
pub enum PresenceSensor {
    PirA,
    PirB,
}

/// A sensor's new state after an edge of its input.
#[derive(Clone, Copy, Debug, PartialEq, Eq, Structural)]
pub struct PresenceDetectionEvent {
    pub sensor: PresenceSensor,
    pub state: Presence,
}

/// A motion sensor's input reads high while it detects presence.
pub open spec fn presence_of_level(level: Level) -> Presence {
    match level {
        Level::Low => Presence::Clear,
        Level::High => Presence::Occupied,
    }
}

impl From<Level> for Presence {
    fn from(value: Level) -> (r: Self) {
        match value {
            Level::Low => Presence::Clear,
            Level::High => Presence::Occupied,
        }
    }
}

impl vstd::std_specs::convert::FromSpecImpl<Level> for Presence {
    open spec fn obeys_from_spec() -> bool {
        true
    }

    open spec fn from_spec(value: Level) -> Self {
        presence_of_level(value)
    }
}

impl PresenceDetectionEvent {
    /// The event for an edge of `sensor`'s input, which now reads `level`.
    pub fn from_edge(sensor: PresenceSensor, level: Level) -> (r: Self)
        ensures
            r.sensor == sensor,
            r.state == presence_of_level(level),
    {
        PresenceDetectionEvent { sensor, state: Presence::from(level) }
    }
}

} // verus!
