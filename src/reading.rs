//! Timestamped sensor readings and the outcome of applying an input to a sensor.

use vstd::prelude::*;

verus! {

/// The last known value of a sensor, with an optional classification and the
/// time (milliseconds on the monotonic clock) at which it was captured.
///
/// A reading is never merged with another one: a sensor replaces it wholesale.
#[derive(Clone, Copy, Debug, PartialEq, Eq)]
pub struct SensorReading<V, C> {
    pub value: V,
    pub class: Option<C>,
    pub at: u64,
}

impl<V, C> SensorReading<V, C> {
    /// A reading of `value`, classified as `class`, captured at `at`.
    pub fn new(value: V, class: Option<C>, at: u64) -> (r: Self)
        ensures
            r.value == value,
            r.class == class,
            r.at == at,
    {
        SensorReading { value, class, at }
    }

    /// Milliseconds elapsed between the capture and `now`; zero when `now` is
    /// earlier than the capture.
    pub fn age(&self, now: u64) -> (r: u64)
        ensures
            r == (if now >= self.at { (now - self.at) as u64 } else { 0u64 }),
    {
        now.saturating_sub(self.at)
    }
}

/// An inbound transport message: a topic and the raw bytes published on it.
#[derive(Clone, Debug, PartialEq, Eq)]
pub struct Message {
    pub topic: String,
    pub payload: Vec<u8>,
}

/// Whether applying an input changed a sensor's reading.
#[derive(Clone, Copy, Debug, PartialEq, Eq, Structural)]
pub enum Update {
    Updated,
    NotUpdated,
}

/// The failures that the decision kernel reports.
#[derive(Clone, Copy, Debug, PartialEq, Eq, Structural)]
pub enum ControlError {
    /// No reading is available for an input class that an evaluation needs.
    NoOperationalSensors,
    /// An inbound message does not parse as the value it should carry.
    MalformedPayload,
    /// A zone was configured without any sensor.
    ConfigurationInvariantViolation,
}

} // verus!
