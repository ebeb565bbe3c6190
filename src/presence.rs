//! Presence sensors with the "timeout-only clear" policy: an "on" message marks
//! the zone occupied, an "off" message is ignored, and occupancy clears only
//! once the configured timeout has passed since the last "on".

use crate::reading::{ControlError, Message, SensorReading, Update};
use vstd::prelude::*;

verus! {

/// Occupancy state.
#[derive(Clone, Copy, Debug, PartialEq, Eq, Structural)]
pub enum Presence {
    Clear,
    Occupied,
}

/// Configuration of one presence sensor; `timeout` is in seconds.
#[derive(Clone, Debug, PartialEq, Eq)]
pub struct PresenceSensorConfig {
    pub name: String,
    pub topic: String,
    pub timeout: u64,
}

pub type PresenceReading = SensorReading<Presence, ()>;

/// What an occupancy payload says, if it is one of the two accepted tokens.
pub open spec fn presence_payload(payload: Seq<u8>) -> Option<Presence> {
    if payload == seq![111u8, 110u8] {
        Some(Presence::Occupied)
    } else if payload == seq![111u8, 102u8, 102u8] {
        Some(Presence::Clear)
    } else {
        None
    }
}

/// Whether a reading has been "occupied" for at least `timeout_secs` at `now`.
pub open spec fn occupancy_expired(r: PresenceReading, timeout_secs: u64, now: u64) -> bool {
    &&& r.value == Presence::Occupied
    &&& now >= r.at
    &&& now - r.at >= timeout_secs * 1000
}

/// What a message does to a sensor with the given configuration and reading:
/// the result it reports and the reading it leaves.
pub open spec fn presence_message_outcome(
    cfg: PresenceSensorConfig,
    reading: Option<PresenceReading>,
    msg: Message,
    now: u64,
) -> (Result<Update, ControlError>, Option<PresenceReading>) {
    if msg.topic@ != cfg.topic@ {
        (Ok(Update::NotUpdated), reading)
    } else {
        match presence_payload(msg.payload@) {
            Some(Presence::Occupied) => (
                Ok(Update::Updated),
                Some(SensorReading { value: Presence::Occupied, class: None, at: now }),
            ),
            Some(Presence::Clear) => (Ok(Update::NotUpdated), reading),
            None => (Err(ControlError::MalformedPayload), reading),
        }
    }
}

/// What a time-based re-evaluation at `now` does to a sensor.
pub open spec fn presence_time_outcome(
    cfg: PresenceSensorConfig,
    reading: Option<PresenceReading>,
    now: u64,
) -> (Result<Update, ControlError>, Option<PresenceReading>) {
    match reading {
        Some(last) => if occupancy_expired(last, cfg.timeout, now) {
            (
                Ok(Update::Updated),
                Some(SensorReading { value: Presence::Clear, class: None, at: now }),
            )
        } else {
            (Ok(Update::NotUpdated), reading)
        },
        None => (Ok(Update::NotUpdated), reading),
    }
}

/// A sensor last set occupied at `t0`, with no input since, stays occupied
/// under time-based re-evaluation before `t0` plus its timeout, and turns
/// clear at any re-evaluation from then on.
pub proof fn lemma_occupancy_timeout(cfg: PresenceSensorConfig, t0: u64, now: u64)
    ensures
        ({
            let occupied = SensorReading { value: Presence::Occupied, class: None::<()>, at: t0 };
            &&& now >= t0 + cfg.timeout * 1000 ==> presence_time_outcome(
                cfg,
                Some(occupied),
                now,
            ) == (
                Ok::<Update, ControlError>(Update::Updated),
                Some(SensorReading { value: Presence::Clear, class: None::<()>, at: now }),
            )
            &&& now < t0 + cfg.timeout * 1000 ==> presence_time_outcome(cfg, Some(occupied), now)
                == (Ok::<Update, ControlError>(Update::NotUpdated), Some(occupied))
        }),
{
}

/// A presence sensor and its last reading, if any.
pub struct PresenceSensor {
    config: PresenceSensorConfig,
    reading: Option<PresenceReading>,
}

impl PresenceSensor {
    pub closed spec fn spec_config(&self) -> PresenceSensorConfig {
        self.config
    }

    pub closed spec fn spec_reading(&self) -> Option<PresenceReading> {
        self.reading
    }

    /// A sensor with the given configuration and no reading yet.
    pub fn new(config: PresenceSensorConfig) -> (r: Self)
        ensures
            r.spec_config() == config,
            r.spec_reading().is_none(),
    {
        PresenceSensor { config, reading: None }
    }

    pub fn config(&self) -> (r: &PresenceSensorConfig)
        ensures
            *r == self.spec_config(),
    {
        &self.config
    }

    pub fn name(&self) -> (r: &str)
        ensures
            r@ == self.spec_config().name@,
    {
        self.config.name.as_str()
    }

    pub fn reading(&self) -> (r: Option<PresenceReading>)
        ensures
            r == self.spec_reading(),
    {
        self.reading
    }

    /// The topics this sensor listens on.
    pub fn mqtt_subscriptions(&self) -> (r: Vec<String>)
        ensures
            r@.len() == 1,
            r@[0]@ == self.spec_config().topic@,
    {
        let mut v = Vec::new();
        v.push(self.config.topic.clone());
        v
    }

    /// Applies an inbound message. On this sensor's topic, "on" records an
    /// occupied reading at `now`, "off" changes nothing, and anything else is
    /// malformed. Other topics are ignored.
    pub fn update_via_mqtt_message(&mut self, msg: &Message, now: u64) -> (r: Result<
        Update,
        ControlError,
    >)
        ensures
            final(self).spec_config() == old(self).spec_config(),
            (r, final(self).spec_reading()) == presence_message_outcome(
                old(self).spec_config(),
                old(self).spec_reading(),
                *msg,
                now,
            ),
    {
        if self.config.topic == msg.topic {
            let p = &msg.payload;
            let value = if p.len() == 2 && p[0] == 111u8 && p[1] == 110u8 {
                Presence::Occupied
            } else if p.len() == 3 && p[0] == 111u8 && p[1] == 102u8 && p[2] == 102u8 {
                Presence::Clear
            } else {
                assert(presence_payload(msg.payload@).is_none()) by {
                    if msg.payload@ == seq![111u8, 110u8] {
                        assert(msg.payload@[1] == 110u8);
                    }
                    if msg.payload@ == seq![111u8, 102u8, 102u8] {
                        assert(msg.payload@[2] == 102u8);
                    }
                }
                return Err(ControlError::MalformedPayload);
            };
            proof {
                if value == Presence::Occupied {
                    assert(msg.payload@ =~= seq![111u8, 110u8]);
                } else {
                    assert(msg.payload@ =~= seq![111u8, 102u8, 102u8]);
                }
            }
            if value == Presence::Clear {
                return Ok(Update::NotUpdated);
            }
            self.reading = Some(SensorReading::new(value, None, now));
            Ok(Update::Updated)
        } else {
            Ok(Update::NotUpdated)
        }
    }

    /// Clears occupancy once the timeout has passed since the last "on".
    pub fn update_via_time(&mut self, now: u64) -> (r: Result<Update, ControlError>)
        ensures
            final(self).spec_config() == old(self).spec_config(),
            (r, final(self).spec_reading()) == presence_time_outcome(
                old(self).spec_config(),
                old(self).spec_reading(),
                now,
            ),
    {
        match self.reading {
            Some(last) => {
                let age = last.age(now);
                if last.value == Presence::Occupied && now >= last.at && age / 1000
                    >= self.config.timeout {
                    self.reading = Some(SensorReading::new(Presence::Clear, None, now));
                    Ok(Update::Updated)
                } else {
                    Ok(Update::NotUpdated)
                }
            },
            None => Ok(Update::NotUpdated),
        }
    }
}

impl From<PresenceSensorConfig> for PresenceSensor {
    fn from(config: PresenceSensorConfig) -> (r: Self) {
        PresenceSensor::new(config)
    }
}

impl vstd::std_specs::convert::FromSpecImpl<PresenceSensorConfig> for PresenceSensor {
    open spec fn obeys_from_spec() -> bool {
        true
    }

    closed spec fn from_spec(config: PresenceSensorConfig) -> Self {
        PresenceSensor { config, reading: None }
    }
}

} // verus!
