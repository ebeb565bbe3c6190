//! Zones: a set of sensors, the policy that fuses them and a command sink.

use crate::air_filter::{sink_output, AirFilter, AirFilterConfig};
use crate::air_quality::{air_quality_message_outcome, AirQualitySensor, AirQualitySensorConfig};
use crate::control_logic::{
    decide, presence_of, stateless_process, worst_of, ControlMode,
};
use crate::presence::{
    presence_message_outcome, presence_time_outcome, PresenceSensor, PresenceSensorConfig,
};
use crate::protocol::ExternalCommand;
use crate::reading::{ControlError, Message, Update};
use vstd::prelude::*;

verus! {

/// Configuration of one zone.
#[derive(Clone, Debug, PartialEq, Eq)]
pub struct ZoneConfig {
    pub name: String,
    pub filter: AirFilterConfig,
    pub presence: Vec<PresenceSensorConfig>,
    pub air_quality: Vec<AirQualitySensorConfig>,
}

/// The mode that follows from how many sensors of each kind a zone has.
pub open spec fn mode_for(n_presence: nat, n_air_quality: nat) -> ControlMode {
    if n_presence > 0 && n_air_quality > 0 {
        ControlMode::PresenceAndAirQuality
    } else if n_presence > 0 {
        ControlMode::PresenceOnly
    } else {
        ControlMode::AirQualityOnly
    }
}

/// Each presence sensor of `new` is its counterpart in `old` after the message.
pub open spec fn presence_message_step(
    old: Seq<PresenceSensor>,
    new: Seq<PresenceSensor>,
    msg: Message,
    now: u64,
) -> bool {
    &&& new.len() == old.len()
    &&& forall|k: int|
        0 <= k < old.len() ==> {
            &&& (#[trigger] new[k]).spec_config() == old[k].spec_config()
            &&& new[k].spec_reading() == presence_message_outcome(
                old[k].spec_config(),
                old[k].spec_reading(),
                msg,
                now,
            ).1
        }
}

/// Some presence sensor reports that the message updated it.
pub open spec fn presence_message_updates(s: Seq<PresenceSensor>, msg: Message, now: u64) -> bool {
    exists|k: int|
        0 <= k < s.len() && presence_message_outcome(
            (#[trigger] s[k]).spec_config(),
            s[k].spec_reading(),
            msg,
            now,
        ).0 == Ok::<Update, ControlError>(Update::Updated)
}

/// Each air-quality sensor of `new` is its counterpart in `old` after the message.
pub open spec fn air_quality_message_step(
    old: Seq<AirQualitySensor>,
    new: Seq<AirQualitySensor>,
    msg: Message,
    now: u64,
) -> bool {
    &&& new.len() == old.len()
    &&& forall|k: int|
        0 <= k < old.len() ==> {
            &&& (#[trigger] new[k]).spec_config() == old[k].spec_config()
            &&& new[k].spec_reading() == air_quality_message_outcome(
                old[k].spec_config(),
                old[k].spec_reading(),
                msg,
                now,
            ).1
        }
}

/// Some air-quality sensor reports that the message updated it.
pub open spec fn air_quality_message_updates(
    s: Seq<AirQualitySensor>,
    msg: Message,
    now: u64,
) -> bool {
    exists|k: int|
        0 <= k < s.len() && air_quality_message_outcome(
            (#[trigger] s[k]).spec_config(),
            s[k].spec_reading(),
            msg,
            now,
        ).0 == Ok::<Update, ControlError>(Update::Updated)
}

/// Each presence sensor of `new` is its counterpart in `old` after a
/// time-based re-evaluation at `now`.
pub open spec fn presence_time_step(
    old: Seq<PresenceSensor>,
    new: Seq<PresenceSensor>,
    now: u64,
) -> bool {
    &&& new.len() == old.len()
    &&& forall|k: int|
        0 <= k < old.len() ==> {
            &&& (#[trigger] new[k]).spec_config() == old[k].spec_config()
            &&& new[k].spec_reading() == presence_time_outcome(
                old[k].spec_config(),
                old[k].spec_reading(),
                now,
            ).1
        }
}

/// Some presence sensor times out at `now`.
pub open spec fn presence_time_updates(s: Seq<PresenceSensor>, now: u64) -> bool {
    exists|k: int|
        0 <= k < s.len() && presence_time_outcome(
            (#[trigger] s[k]).spec_config(),
            s[k].spec_reading(),
            now,
        ).0 == Ok::<Update, ControlError>(Update::Updated)
}

/// `new` is zone `old` after the message.
pub open spec fn zone_message_step(old: Zone, new: Zone, msg: Message, now: u64) -> bool {
    &&& new.spec_name() == old.spec_name()
    &&& new.spec_filter() == old.spec_filter()
    &&& presence_message_step(old.spec_presence(), new.spec_presence(), msg, now)
    &&& air_quality_message_step(old.spec_air_quality(), new.spec_air_quality(), msg, now)
}

/// Some sensor of the zone reports that the message updated it.
pub open spec fn zone_message_updates(z: Zone, msg: Message, now: u64) -> bool {
    presence_message_updates(z.spec_presence(), msg, now) || air_quality_message_updates(
        z.spec_air_quality(),
        msg,
        now,
    )
}

/// `new` is zone `old` after a time-based re-evaluation; air-quality readings
/// do not change with time.
pub open spec fn zone_time_step(old: Zone, new: Zone, now: u64) -> bool {
    &&& new.spec_name() == old.spec_name()
    &&& new.spec_filter() == old.spec_filter()
    &&& presence_time_step(old.spec_presence(), new.spec_presence(), now)
    &&& same_air_quality_readings(old.spec_air_quality(), new.spec_air_quality())
}

/// The sensors keep their configurations and readings.
pub open spec fn same_air_quality_readings(
    old: Seq<AirQualitySensor>,
    new: Seq<AirQualitySensor>,
) -> bool {
    &&& new.len() == old.len()
    &&& forall|k: int|
        0 <= k < old.len() ==> {
            &&& (#[trigger] new[k]).spec_config() == old[k].spec_config()
            &&& new[k].spec_reading() == old[k].spec_reading()
        }
}

/// The configuration names at least one sensor.
pub open spec fn config_has_sensor(config: ZoneConfig) -> bool {
    config.presence@.len() > 0 || config.air_quality@.len() > 0
}

/// An independently controlled ventilation area.
pub struct Zone {
    name: String,
    filter: AirFilter,
    presence_sensors: Vec<PresenceSensor>,
    air_quality_sensors: Vec<AirQualitySensor>,
}

impl Zone {
    pub closed spec fn spec_name(&self) -> Seq<char> {
        self.name@
    }

    pub closed spec fn spec_filter(&self) -> AirFilter {
        self.filter
    }

    pub closed spec fn spec_presence(&self) -> Seq<PresenceSensor> {
        self.presence_sensors@
    }

    pub closed spec fn spec_air_quality(&self) -> Seq<AirQualitySensor> {
        self.air_quality_sensors@
    }

    /// A zone has at least one sensor.
    pub open spec fn wf(&self) -> bool {
        self.spec_presence().len() > 0 || self.spec_air_quality().len() > 0
    }

    pub open spec fn spec_mode(&self) -> ControlMode {
        mode_for(self.spec_presence().len(), self.spec_air_quality().len())
    }

    /// `self` holds one sensor without a reading for each sensor configuration,
    /// in order, and a sink that has delivered nothing.
    pub open spec fn is_fresh_from(&self, config: ZoneConfig) -> bool {
        &&& self.wf()
        &&& self.spec_name() == config.name@
        &&& self.spec_filter().spec_config() == config.filter
        &&& self.spec_filter().spec_last_command().is_none()
        &&& self.spec_presence().len() == config.presence@.len()
        &&& self.spec_air_quality().len() == config.air_quality@.len()
        &&& forall|i: int|
            0 <= i < self.spec_presence().len() ==> {
                &&& (#[trigger] self.spec_presence()[i]).spec_config() == config.presence@[i]
                &&& self.spec_presence()[i].spec_reading().is_none()
            }
        &&& forall|i: int|
            0 <= i < self.spec_air_quality().len() ==> {
                &&& (#[trigger] self.spec_air_quality()[i]).spec_config()
                    == config.air_quality@[i]
                &&& self.spec_air_quality()[i].spec_reading().is_none()
            }
    }

    /// A zone with a sensor, without readings, for each sensor configuration,
    /// in order. A zone without any sensor is a configuration error.
    pub fn new(config: ZoneConfig) -> (r: Result<Zone, ControlError>)
        ensures
            match r {
                Ok(z) => config_has_sensor(config) && z.is_fresh_from(config),
                Err(e) => !config_has_sensor(config) && e
                    == ControlError::ConfigurationInvariantViolation,
            },
    {
        if config.presence.len() == 0 && config.air_quality.len() == 0 {
            return Err(ControlError::ConfigurationInvariantViolation);
        }
        let ZoneConfig { name, filter, presence, air_quality } = config;
        let ghost presence_configs = presence@;
        let ghost air_quality_configs = air_quality@;
        let mut presence = presence;
        let mut air_quality = air_quality;
        let mut presence_sensors: Vec<PresenceSensor> = Vec::new();
        while presence.len() > 0
            invariant
                presence_sensors@.len() + presence@.len() == presence_configs.len(),
                presence@ == presence_configs.skip(presence_sensors@.len() as int),
                forall|i: int|
                    0 <= i < presence_sensors@.len() ==> {
                        &&& (#[trigger] presence_sensors@[i]).spec_config() == presence_configs[i]
                        &&& presence_sensors@[i].spec_reading().is_none()
                    },
            decreases presence@.len(),
        {
            let c = presence.remove(0);
            presence_sensors.push(PresenceSensor::new(c));
            assert(presence@ =~= presence_configs.skip(presence_sensors@.len() as int));
        }
        let mut air_quality_sensors: Vec<AirQualitySensor> = Vec::new();
        while air_quality.len() > 0
            invariant
                air_quality_sensors@.len() + air_quality@.len() == air_quality_configs.len(),
                air_quality@ == air_quality_configs.skip(air_quality_sensors@.len() as int),
                forall|i: int|
                    0 <= i < air_quality_sensors@.len() ==> {
                        &&& (#[trigger] air_quality_sensors@[i]).spec_config()
                            == air_quality_configs[i]
                        &&& air_quality_sensors@[i].spec_reading().is_none()
                    },
            decreases air_quality@.len(),
        {
            let c = air_quality.remove(0);
            air_quality_sensors.push(AirQualitySensor::new(c));
            assert(air_quality@ =~= air_quality_configs.skip(air_quality_sensors@.len() as int));
        }
        Ok(Zone { name, filter: AirFilter::new(filter), presence_sensors, air_quality_sensors })
    }

    pub fn name(&self) -> (r: &str)
        ensures
            r@ == self.spec_name(),
    {
        self.name.as_str()
    }

    pub fn filter(&self) -> (r: &AirFilter)
        ensures
            *r == self.spec_filter(),
    {
        &self.filter
    }

    pub fn presence_sensors(&self) -> (r: &[PresenceSensor])
        ensures
            r@ == self.spec_presence(),
    {
        self.presence_sensors.as_slice()
    }

    pub fn air_quality_sensors(&self) -> (r: &[AirQualitySensor])
        ensures
            r@ == self.spec_air_quality(),
    {
        self.air_quality_sensors.as_slice()
    }

    /// The fusion policy for this zone's sensors.
    pub fn mode(&self) -> (r: ControlMode)
        requires
            self.wf(),
        ensures
            r == self.spec_mode(),
    {
        let have_presence = self.presence_sensors.len() > 0;
        let have_air_quality = self.air_quality_sensors.len() > 0;
        if have_presence && have_air_quality {
            ControlMode::PresenceAndAirQuality
        } else if have_presence {
            ControlMode::PresenceOnly
        } else {
            ControlMode::AirQualityOnly
        }
    }

    /// The decision of this evaluation cycle.
    pub fn evaluate(&self) -> (r: Result<ExternalCommand, ControlError>)
        requires
            self.wf(),
        ensures
            r == decide(
                self.spec_mode(),
                worst_of(self.spec_air_quality()),
                presence_of(self.spec_presence()),
            ),
    {
        stateless_process(
            self.mode(),
            self.presence_sensors.as_slice(),
            self.air_quality_sensors.as_slice(),
        )
    }

    /// Evaluates the zone and returns the command to deliver to its sink:
    /// `None` when it repeats the last delivered one.
    pub fn evaluate_and_send_command(&self) -> (r: Result<Option<ExternalCommand>, ControlError>)
        requires
            self.wf(),
        ensures
            r == (match decide(
                self.spec_mode(),
                worst_of(self.spec_air_quality()),
                presence_of(self.spec_presence()),
            ) {
                Ok(c) => Ok::<Option<ExternalCommand>, ControlError>(
                    sink_output(self.spec_filter().spec_last_command(), c),
                ),
                Err(e) => Err(e),
            }),
    {
        let command = self.evaluate()?;
        Ok(self.filter.command(command))
    }

    /// The topics that the zone's sensors listen on: those of the presence
    /// sensors, then those of the air-quality sensors.
    pub fn mqtt_subscriptions(&self) -> (r: Vec<String>)
        ensures
            r@.len() == self.spec_presence().len() + self.spec_air_quality().len(),
            forall|k: int|
                0 <= k < self.spec_presence().len() ==> (#[trigger] r@[k])@
                    == self.spec_presence()[k].spec_config().topic@,
            forall|k: int|
                0 <= k < self.spec_air_quality().len() ==> (#[trigger] r@[self.spec_presence().len()
                    + k])@ == self.spec_air_quality()[k].spec_config().topic@,
    {
        let mut res: Vec<String> = Vec::new();
        let mut i: usize = 0;
        while i < self.presence_sensors.len()
            invariant
                i <= self.presence_sensors@.len(),
                res@.len() == i,
                forall|k: int|
                    0 <= k < i ==> (#[trigger] res@[k])@
                        == self.presence_sensors@[k].spec_config().topic@,
            decreases self.presence_sensors@.len() - i,
        {
            let mut subs = self.presence_sensors[i].mqtt_subscriptions();
            res.append(&mut subs);
            i = i + 1;
        }
        let n = self.presence_sensors.len();
        let mut j: usize = 0;
        while j < self.air_quality_sensors.len()
            invariant
                n == self.presence_sensors@.len(),
                j <= self.air_quality_sensors@.len(),
                res@.len() == n + j,
                forall|k: int|
                    0 <= k < n ==> (#[trigger] res@[k])@
                        == self.presence_sensors@[k].spec_config().topic@,
                forall|k: int|
                    0 <= k < j ==> (#[trigger] res@[n + k])@
                        == self.air_quality_sensors@[k].spec_config().topic@,
            decreases self.air_quality_sensors@.len() - j,
        {
            let mut subs = self.air_quality_sensors[j].mqtt_subscriptions();
            let ghost before = res@;
            res.append(&mut subs);
            proof {
                assert forall|k: int| 0 <= k < j + 1 implies (#[trigger] res@[n + k])@
                    == self.air_quality_sensors@[k].spec_config().topic@ by {
                    if k < j {
                        assert(res@[n + k] == before[n + k]);
                    }
                }
            }
            j = j + 1;
        }
        res
    }

    /// Applies an inbound message to every sensor of the zone; `Updated` when
    /// some sensor's reading changed. A sensor that rejects the message keeps
    /// its reading and does not stop the others.
    pub fn update_via_mqtt_message(&mut self, msg: &Message, now: u64) -> (r: Update)
        ensures
            zone_message_step(*old(self), *final(self), *msg, now),
            (r == Update::Updated) == zone_message_updates(*old(self), *msg, now),
    {
        let mut res = Update::NotUpdated;
        presence_via_message(&mut res, msg, now, &mut self.presence_sensors);
        air_quality_via_message(&mut res, msg, now, &mut self.air_quality_sensors);
        res
    }

    /// Re-evaluates every sensor of the zone at `now`; `Updated` when some
    /// presence sensor timed out.
    pub fn update_via_time(&mut self, now: u64) -> (r: Update)
        ensures
            zone_time_step(*old(self), *final(self), now),
            (r == Update::Updated) == presence_time_updates(old(self).spec_presence(), now),
    {
        let mut res = Update::NotUpdated;
        presence_via_time(&mut res, now, &mut self.presence_sensors);
        air_quality_via_time(&mut res, now, &mut self.air_quality_sensors);
        res
    }

    /// Records that `command` reached this zone's sink.
    pub fn command_delivered(&mut self, command: ExternalCommand)
        ensures
            final(self).spec_name() == old(self).spec_name(),
            final(self).spec_presence() == old(self).spec_presence(),
            final(self).spec_air_quality() == old(self).spec_air_quality(),
            final(self).spec_filter().spec_config() == old(self).spec_filter().spec_config(),
            final(self).spec_filter().spec_last_command() == Some(command),
    {
        self.filter.command_delivered(command);
    }
}

/// Some zone has a sensor that the message updates.
pub open spec fn zones_message_updates(zones: Seq<Zone>, msg: Message, now: u64) -> bool {
    exists|i: int| 0 <= i < zones.len() && zone_message_updates(#[trigger] zones[i], msg, now)
}

/// Some zone has a presence sensor that times out at `now`.
pub open spec fn zones_time_updates(zones: Seq<Zone>, now: u64) -> bool {
    exists|i: int|
        0 <= i < zones.len() && presence_time_updates((#[trigger] zones[i]).spec_presence(), now)
}

/// Applies an inbound message to every zone; `Updated` when some reading changed.
pub fn update_zones_via_mqtt_message(zones: &mut Vec<Zone>, msg: &Message, now: u64) -> (r: Update)
    ensures
        final(zones)@.len() == old(zones)@.len(),
        forall|i: int|
            0 <= i < old(zones)@.len() ==> zone_message_step(
                old(zones)@[i],
                #[trigger] final(zones)@[i],
                *msg,
                now,
            ),
        (r == Update::Updated) == zones_message_updates(old(zones)@, *msg, now),
{
    let ghost start = zones@;
    let mut result = Update::NotUpdated;
    let mut i: usize = 0;
    while i < zones.len()
        invariant
            i <= zones@.len(),
            zones@.len() == start.len(),
            forall|k: int|
                0 <= k < i ==> zone_message_step(start[k], #[trigger] zones@[k], *msg, now),
            forall|k: int| i <= k < zones@.len() ==> zones@[k] == start[k],
            (result == Update::Updated) == zones_message_updates(start.take(i as int), *msg, now),
        decreases zones@.len() - i,
    {
        let r = zones[i].update_via_mqtt_message(msg, now);
        if let Update::Updated = r {
            result = Update::Updated;
        }
        proof {
            let prev = start.take(i as int);
            let next = start.take(i + 1);
            assert(next[i as int] == start[i as int]);
            if zones_message_updates(prev, *msg, now) {
                let k = choose|k: int|
                    0 <= k < prev.len() && zone_message_updates(#[trigger] prev[k], *msg, now);
                assert(next[k] == prev[k]);
            }
            if zones_message_updates(next, *msg, now) && !zones_message_updates(prev, *msg, now) {
                let k = choose|k: int|
                    0 <= k < next.len() && zone_message_updates(#[trigger] next[k], *msg, now);
                if k < i {
                    assert(prev[k] == next[k]);
                }
            }
        }
        i = i + 1;
    }
    assert(start.take(i as int) =~= start);
    result
}

/// Re-evaluates every zone at `now`; `Updated` when some presence sensor
/// timed out.
pub fn update_zones_via_time(zones: &mut Vec<Zone>, now: u64) -> (r: Update)
    ensures
        final(zones)@.len() == old(zones)@.len(),
        forall|i: int|
            0 <= i < old(zones)@.len() ==> zone_time_step(
                old(zones)@[i],
                #[trigger] final(zones)@[i],
                now,
            ),
        (r == Update::Updated) == zones_time_updates(old(zones)@, now),
{
    let ghost start = zones@;
    let mut result = Update::NotUpdated;
    let mut i: usize = 0;
    while i < zones.len()
        invariant
            i <= zones@.len(),
            zones@.len() == start.len(),
            forall|k: int| 0 <= k < i ==> zone_time_step(start[k], #[trigger] zones@[k], now),
            forall|k: int| i <= k < zones@.len() ==> zones@[k] == start[k],
            (result == Update::Updated) == zones_time_updates(start.take(i as int), now),
        decreases zones@.len() - i,
    {
        let r = zones[i].update_via_time(now);
        if let Update::Updated = r {
            result = Update::Updated;
        }
        proof {
            let prev = start.take(i as int);
            let next = start.take(i + 1);
            assert(next[i as int] == start[i as int]);
            if zones_time_updates(prev, now) {
                let k = choose|k: int|
                    0 <= k < prev.len() && presence_time_updates(
                        (#[trigger] prev[k]).spec_presence(),
                        now,
                    );
                assert(next[k] == prev[k]);
            }
            if zones_time_updates(next, now) && !zones_time_updates(prev, now) {
                let k = choose|k: int|
                    0 <= k < next.len() && presence_time_updates(
                        (#[trigger] next[k]).spec_presence(),
                        now,
                    );
                if k < i {
                    assert(prev[k] == next[k]);
                }
            }
        }
        i = i + 1;
    }
    assert(start.take(i as int) =~= start);
    result
}

fn presence_via_message(
    res: &mut Update,
    msg: &Message,
    now: u64,
    sensors: &mut Vec<PresenceSensor>,
)
    ensures
        presence_message_step(old(sensors)@, final(sensors)@, *msg, now),
        *final(res) == (if presence_message_updates(old(sensors)@, *msg, now) {
            Update::Updated
        } else {
            *old(res)
        }),
{
    let ghost start = sensors@;
    let mut i: usize = 0;
    while i < sensors.len()
        invariant
            i <= sensors@.len(),
            sensors@.len() == start.len(),
            forall|k: int|
                0 <= k < i ==> {
                    &&& (#[trigger] sensors@[k]).spec_config() == start[k].spec_config()
                    &&& sensors@[k].spec_reading() == presence_message_outcome(
                        start[k].spec_config(),
                        start[k].spec_reading(),
                        *msg,
                        now,
                    ).1
                },
            forall|k: int| i <= k < sensors@.len() ==> sensors@[k] == start[k],
            *res == (if presence_message_updates(start.take(i as int), *msg, now) {
                Update::Updated
            } else {
                *old(res)
            }),
        decreases sensors@.len() - i,
    {
        let r = sensors[i].update_via_mqtt_message(msg, now);
        if let Ok(Update::Updated) = r {
            *res = Update::Updated;
        }
        proof {
            let prev = start.take(i as int);
            let next = start.take(i + 1);
            assert(next[i as int] == start[i as int]);
            if presence_message_updates(prev, *msg, now) {
                let k = choose|k: int|
                    0 <= k < prev.len() && presence_message_outcome(
                        (#[trigger] prev[k]).spec_config(),
                        prev[k].spec_reading(),
                        *msg,
                        now,
                    ).0 == Ok::<Update, ControlError>(Update::Updated);
                assert(next[k] == prev[k]);
            }
            if presence_message_updates(next, *msg, now) && !presence_message_updates(prev, *msg, now) {
                let k = choose|k: int|
                    0 <= k < next.len() && presence_message_outcome(
                        (#[trigger] next[k]).spec_config(),
                        next[k].spec_reading(),
                        *msg,
                        now,
                    ).0 == Ok::<Update, ControlError>(Update::Updated);
                if k < i {
                    assert(prev[k] == next[k]);
                }
            }
        }
        i = i + 1;
    }
    assert(start.take(i as int) =~= start);
}

fn air_quality_via_message(
    res: &mut Update,
    msg: &Message,
    now: u64,
    sensors: &mut Vec<AirQualitySensor>,
)
    ensures
        air_quality_message_step(old(sensors)@, final(sensors)@, *msg, now),
        *final(res) == (if air_quality_message_updates(old(sensors)@, *msg, now) {
            Update::Updated
        } else {
            *old(res)
        }),
{
    let ghost start = sensors@;
    let mut i: usize = 0;
    while i < sensors.len()
        invariant
            i <= sensors@.len(),
            sensors@.len() == start.len(),
            forall|k: int|
                0 <= k < i ==> {
                    &&& (#[trigger] sensors@[k]).spec_config() == start[k].spec_config()
                    &&& sensors@[k].spec_reading() == air_quality_message_outcome(
                        start[k].spec_config(),
                        start[k].spec_reading(),
                        *msg,
                        now,
                    ).1
                },
            forall|k: int| i <= k < sensors@.len() ==> sensors@[k] == start[k],
            *res == (if air_quality_message_updates(start.take(i as int), *msg, now) {
                Update::Updated
            } else {
                *old(res)
            }),
        decreases sensors@.len() - i,
    {
        let r = sensors[i].update_via_mqtt_message(msg, now);
        if let Ok(Update::Updated) = r {
            *res = Update::Updated;
        }
        proof {
            let prev = start.take(i as int);
            let next = start.take(i + 1);
            assert(next[i as int] == start[i as int]);
            if air_quality_message_updates(prev, *msg, now) {
                let k = choose|k: int|
                    0 <= k < prev.len() && air_quality_message_outcome(
                        (#[trigger] prev[k]).spec_config(),
                        prev[k].spec_reading(),
                        *msg,
                        now,
                    ).0 == Ok::<Update, ControlError>(Update::Updated);
                assert(next[k] == prev[k]);
            }
            if air_quality_message_updates(next, *msg, now) && !air_quality_message_updates(
                prev,
                *msg,
                now,
            ) {
                let k = choose|k: int|
                    0 <= k < next.len() && air_quality_message_outcome(
                        (#[trigger] next[k]).spec_config(),
                        next[k].spec_reading(),
                        *msg,
                        now,
                    ).0 == Ok::<Update, ControlError>(Update::Updated);
                if k < i {
                    assert(prev[k] == next[k]);
                }
            }
        }
        i = i + 1;
    }
    assert(start.take(i as int) =~= start);
}

fn presence_via_time(res: &mut Update, now: u64, sensors: &mut Vec<PresenceSensor>)
    ensures
        presence_time_step(old(sensors)@, final(sensors)@, now),
        *final(res) == (if presence_time_updates(old(sensors)@, now) {
            Update::Updated
        } else {
            *old(res)
        }),
{
    let ghost start = sensors@;
    let mut i: usize = 0;
    while i < sensors.len()
        invariant
            i <= sensors@.len(),
            sensors@.len() == start.len(),
            forall|k: int|
                0 <= k < i ==> {
                    &&& (#[trigger] sensors@[k]).spec_config() == start[k].spec_config()
                    &&& sensors@[k].spec_reading() == presence_time_outcome(
                        start[k].spec_config(),
                        start[k].spec_reading(),
                        now,
                    ).1
                },
            forall|k: int| i <= k < sensors@.len() ==> sensors@[k] == start[k],
            *res == (if presence_time_updates(start.take(i as int), now) {
                Update::Updated
            } else {
                *old(res)
            }),
        decreases sensors@.len() - i,
    {
        let r = sensors[i].update_via_time(now);
        if let Ok(Update::Updated) = r {
            *res = Update::Updated;
        }
        proof {
            let prev = start.take(i as int);
            let next = start.take(i + 1);
            assert(next[i as int] == start[i as int]);
            if presence_time_updates(prev, now) {
                let k = choose|k: int|
                    0 <= k < prev.len() && presence_time_outcome(
                        (#[trigger] prev[k]).spec_config(),
                        prev[k].spec_reading(),
                        now,
                    ).0 == Ok::<Update, ControlError>(Update::Updated);
                assert(next[k] == prev[k]);
            }
            if presence_time_updates(next, now) && !presence_time_updates(prev, now) {
                let k = choose|k: int|
                    0 <= k < next.len() && presence_time_outcome(
                        (#[trigger] next[k]).spec_config(),
                        next[k].spec_reading(),
                        now,
                    ).0 == Ok::<Update, ControlError>(Update::Updated);
                if k < i {
                    assert(prev[k] == next[k]);
                }
            }
        }
        i = i + 1;
    }
    assert(start.take(i as int) =~= start);
}

fn air_quality_via_time(res: &mut Update, now: u64, sensors: &mut Vec<AirQualitySensor>)
    ensures
        same_air_quality_readings(old(sensors)@, final(sensors)@),
        *final(res) == *old(res),
{
    let ghost start = sensors@;
    let mut i: usize = 0;
    while i < sensors.len()
        invariant
            i <= sensors@.len(),
            sensors@.len() == start.len(),
            forall|k: int|
                0 <= k < sensors@.len() ==> {
                    &&& (#[trigger] sensors@[k]).spec_config() == start[k].spec_config()
                    &&& sensors@[k].spec_reading() == start[k].spec_reading()
                },
            *res == *old(res),
        decreases sensors@.len() - i,
    {
        let r = sensors[i].update_via_time(now);
        if let Ok(Update::Updated) = r {
            *res = Update::Updated;
        }
        i = i + 1;
    }
}

} // verus!
