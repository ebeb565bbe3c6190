//! Air-quality sensors: a measurement classified into cleanliness tiers.

use crate::decimal::{parse_milli, parse_milli_spec};
use crate::reading::{ControlError, Message, SensorReading, Update};
use vstd::prelude::*;

verus! {

/// A discrete air-quality tier. Worse tiers sort first: the worst of several
/// readings is their minimum.
#[derive(Clone, Copy, Debug, PartialEq, Eq, PartialOrd, Ord, Structural)]
pub enum AirCleanliness {
    VeryDirty,
    Dirty,
    PreDirty,
    Clean,
}

/// Position of a tier in the order, dirtiest first.
pub open spec fn cleanliness_rank(c: AirCleanliness) -> int {
    match c {
        AirCleanliness::VeryDirty => 0,
        AirCleanliness::Dirty => 1,
        AirCleanliness::PreDirty => 2,
        AirCleanliness::Clean => 3,
    }
}

impl AirCleanliness {
    /// Position of this tier in the order, dirtiest first.
    pub fn rank(&self) -> (r: u8)
        ensures
            r == cleanliness_rank(*self),
    {
        match self {
            AirCleanliness::VeryDirty => 0,
            AirCleanliness::Dirty => 1,
            AirCleanliness::PreDirty => 2,
            AirCleanliness::Clean => 3,
        }
    }
}

/// Configuration of one air-quality sensor. Thresholds are in thousandths of
/// the measured unit, like the readings.
#[derive(Clone, Debug, PartialEq, Eq)]
pub struct AirQualitySensorConfig {
    pub topic: String,
    pub pre_dirty_threshold: i64,
    pub dirty_threshold: i64,
    pub very_dirty_threshold: i64,
}

/// The tier of `value` under the given thresholds: the dirtiest tier whose
/// threshold the value reaches.
pub open spec fn classify(cfg: AirQualitySensorConfig, value: i64) -> AirCleanliness {
    if value >= cfg.very_dirty_threshold {
        AirCleanliness::VeryDirty
    } else if value >= cfg.dirty_threshold {
        AirCleanliness::Dirty
    } else if value >= cfg.pre_dirty_threshold {
        AirCleanliness::PreDirty
    } else {
        AirCleanliness::Clean
    }
}

impl AirQualitySensorConfig {
    /// The thresholds rise strictly from pre-dirty to very dirty.
    pub open spec fn thresholds_ordered(&self) -> bool {
        self.pre_dirty_threshold < self.dirty_threshold < self.very_dirty_threshold
    }

    pub fn classify_reading(&self, value: i64) -> (r: AirCleanliness)
        ensures
            r == classify(*self, value),
    {
        if value >= self.very_dirty_threshold {
            AirCleanliness::VeryDirty
        } else if value >= self.dirty_threshold {
            AirCleanliness::Dirty
        } else if value >= self.pre_dirty_threshold {
            AirCleanliness::PreDirty
        } else {
            AirCleanliness::Clean
        }
    }
}

/// A larger measurement is never classified cleaner than a smaller one.
pub proof fn lemma_classify_monotone(cfg: AirQualitySensorConfig, a: i64, b: i64)
    requires
        a <= b,
    ensures
        cleanliness_rank(classify(cfg, b)) <= cleanliness_rank(classify(cfg, a)),
{
}

/// A measurement exactly at a threshold is classified into the dirtier tier.
pub proof fn lemma_classify_boundaries(cfg: AirQualitySensorConfig)
    requires
        cfg.thresholds_ordered(),
    ensures
        classify(cfg, cfg.very_dirty_threshold) == AirCleanliness::VeryDirty,
        classify(cfg, cfg.dirty_threshold) == AirCleanliness::Dirty,
        classify(cfg, cfg.pre_dirty_threshold) == AirCleanliness::PreDirty,
{
}

pub type AirQualityReading = SensorReading<i64, AirCleanliness>;

/// An air-quality sensor and its last reading, if any.
pub struct AirQualitySensor {
    config: AirQualitySensorConfig,
    reading: Option<AirQualityReading>,
}

/// The reading that `payload` yields at `now`, if it parses.
pub open spec fn air_quality_reading_of(
    cfg: AirQualitySensorConfig,
    payload: Seq<u8>,
    now: u64,
) -> Option<AirQualityReading> {
    match parse_milli_spec(payload) {
        Some(v) => Some(SensorReading { value: v, class: Some(classify(cfg, v)), at: now }),
        None => None,
    }
}

/// What a message does to a sensor with the given configuration and reading:
/// the result it reports and the reading it leaves.
pub open spec fn air_quality_message_outcome(
    cfg: AirQualitySensorConfig,
    reading: Option<AirQualityReading>,
    msg: Message,
    now: u64,
) -> (Result<Update, ControlError>, Option<AirQualityReading>) {
    if msg.topic@ != cfg.topic@ {
        (Ok(Update::NotUpdated), reading)
    } else {
        match air_quality_reading_of(cfg, msg.payload@, now) {
            Some(new_reading) => (Ok(Update::Updated), Some(new_reading)),
            None => (Err(ControlError::MalformedPayload), reading),
        }
    }
}

impl AirQualitySensor {
    pub closed spec fn spec_config(&self) -> AirQualitySensorConfig {
        self.config
    }

    pub closed spec fn spec_reading(&self) -> Option<AirQualityReading> {
        self.reading
    }

    /// A sensor with the given configuration and no reading yet.
    pub fn new(config: AirQualitySensorConfig) -> (r: Self)
        ensures
            r.spec_config() == config,
            r.spec_reading().is_none(),
    {
        AirQualitySensor { config, reading: None }
    }

    pub fn config(&self) -> (r: &AirQualitySensorConfig)
        ensures
            *r == self.spec_config(),
    {
        &self.config
    }

    pub fn reading(&self) -> (r: Option<AirQualityReading>)
        ensures
            r == self.spec_reading(),
    {
        self.reading
    }

    /// The topics this sensor listens on.
    pub fn mqtt_subscriptions(&self) -> (r: Vec<String>)
        ensures
            r@.len() == 1,
            r@[0]@ == self.spec_config().topic@,
    {
        let mut v = Vec::new();
        v.push(self.config.topic.clone());
        v
    }

    /// Applies an inbound message: on this sensor's topic, the payload must be
    /// decimal text, which replaces the reading; other topics are ignored.
    pub fn update_via_mqtt_message(&mut self, msg: &Message, now: u64) -> (r: Result<
        Update,
        ControlError,
    >)
        ensures
            final(self).spec_config() == old(self).spec_config(),
            (r, final(self).spec_reading()) == air_quality_message_outcome(
                old(self).spec_config(),
                old(self).spec_reading(),
                *msg,
                now,
            ),
    {
        if self.config.topic == msg.topic {
            match parse_milli(msg.payload.as_slice()) {
                Some(value) => {
                    let class = self.config.classify_reading(value);
                    self.reading = Some(SensorReading::new(value, Some(class), now));
                    Ok(Update::Updated)
                },
                None => Err(ControlError::MalformedPayload),
            }
        } else {
            Ok(Update::NotUpdated)
        }
    }

    /// Time alone never changes an air-quality reading.
    pub fn update_via_time(&mut self, now: u64) -> (r: Result<Update, ControlError>)
        ensures
            r == Ok::<Update, ControlError>(Update::NotUpdated),
            final(self).spec_config() == old(self).spec_config(),
            final(self).spec_reading() == old(self).spec_reading(),
    {
        Ok(Update::NotUpdated)
    }
}

impl From<AirQualitySensorConfig> for AirQualitySensor {
    fn from(config: AirQualitySensorConfig) -> (r: Self) {
        AirQualitySensor::new(config)
    }
}

impl vstd::std_specs::convert::FromSpecImpl<AirQualitySensorConfig> for AirQualitySensor {
    open spec fn obeys_from_spec() -> bool {
        true
    }

    closed spec fn from_spec(config: AirQualitySensorConfig) -> Self {
        AirQualitySensor { config, reading: None }
    }
}

} // verus!
