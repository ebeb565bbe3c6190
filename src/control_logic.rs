//! The decision engine: fuses a zone's readings into one fan command.

use crate::air_quality::{cleanliness_rank, AirCleanliness, AirQualitySensor};
use crate::presence::{Presence, PresenceSensor};
use crate::protocol::{ExternalCommand, ExternalFanCommand, FanSpeed};
use crate::reading::ControlError;
use vstd::prelude::*;

verus! {

/// How long every run that the engine asks for lasts, in seconds.
pub const RUN_SECONDS: u64 = 120;

/// Which fusion policy applies to a zone; it follows from which kinds of
/// sensor the zone has.
#[derive(Clone, Copy, Debug, PartialEq, Eq, Structural)]
pub enum ControlMode {
    PresenceAndAirQuality,
    AirQualityOnly,
    PresenceOnly,
}

/// The tier of a sensor's reading, if it has a classified one.
pub open spec fn reading_class(s: AirQualitySensor) -> Option<AirCleanliness> {
    match s.spec_reading() {
        Some(r) => r.class,
        None => None,
    }
}

/// The worse of an aggregate so far and one more optional tier.
pub open spec fn worse_of(acc: Option<AirCleanliness>, c: Option<AirCleanliness>) -> Option<
    AirCleanliness,
> {
    match (acc, c) {
        (None, c) => c,
        (Some(a), None) => Some(a),
        (Some(a), Some(b)) => if cleanliness_rank(b) < cleanliness_rank(a) {
            Some(b)
        } else {
            Some(a)
        },
    }
}

/// The worst tier among the sensors' readings; `None` if none has one.
pub open spec fn worst_of(s: Seq<AirQualitySensor>) -> Option<AirCleanliness>
    decreases s.len(),
{
    if s.len() == 0 {
        None
    } else {
        worse_of(worst_of(s.drop_last()), reading_class(s.last()))
    }
}

/// Whether some sensor has a reading.
pub open spec fn has_presence_reading(s: Seq<PresenceSensor>) -> bool {
    exists|i: int| 0 <= i < s.len() && (#[trigger] s[i]).spec_reading().is_some()
}

/// Whether a sensor's reading is "occupied".
pub open spec fn reads_occupied(s: PresenceSensor) -> bool {
    match s.spec_reading() {
        Some(r) => r.value == Presence::Occupied,
        None => false,
    }
}

/// Whether some sensor's reading is "occupied".
pub open spec fn any_occupied(s: Seq<PresenceSensor>) -> bool {
    exists|i: int| 0 <= i < s.len() && reads_occupied(#[trigger] s[i])
}

/// Aggregate presence: `None` if no sensor has a reading.
pub open spec fn presence_of(s: Seq<PresenceSensor>) -> Option<bool> {
    if has_presence_reading(s) {
        Some(any_occupied(s))
    } else {
        None
    }
}

pub open spec fn run_for_limited() -> ExternalFanCommand {
    ExternalFanCommand::RunFor { seconds: RUN_SECONDS }
}

/// The command for an occupied zone, or a zone whose presence is unknown:
/// driven by the air-quality tier alone.
pub open spec fn air_quality_command(c: AirCleanliness) -> ExternalCommand {
    match c {
        AirCleanliness::Clean => ExternalCommand { fan: Some(ExternalFanCommand::Stop), speed: None },
        AirCleanliness::PreDirty => ExternalCommand {
            fan: Some(run_for_limited()),
            speed: Some(FanSpeed::Low),
        },
        AirCleanliness::Dirty => ExternalCommand {
            fan: Some(run_for_limited()),
            speed: Some(FanSpeed::Medium),
        },
        AirCleanliness::VeryDirty => ExternalCommand {
            fan: Some(run_for_limited()),
            speed: Some(FanSpeed::High),
        },
    }
}

/// The command when only presence is known: run at the current speed while
/// occupied, stop otherwise.
pub open spec fn presence_command(occupied: bool) -> ExternalCommand {
    if occupied {
        ExternalCommand { fan: Some(run_for_limited()), speed: None }
    } else {
        ExternalCommand { fan: Some(ExternalFanCommand::Stop), speed: None }
    }
}

/// The command for an unoccupied zone: purge at low speed only while the air
/// is very dirty.
pub open spec fn unoccupied_command(c: AirCleanliness) -> ExternalCommand {
    if c == AirCleanliness::VeryDirty {
        ExternalCommand { fan: Some(run_for_limited()), speed: Some(FanSpeed::Low) }
    } else {
        ExternalCommand { fan: Some(ExternalFanCommand::Stop), speed: None }
    }
}

/// The decision for a mode, given the aggregate tier and presence.
pub open spec fn decide(
    mode: ControlMode,
    worst: Option<AirCleanliness>,
    presence: Option<bool>,
) -> Result<ExternalCommand, ControlError> {
    match mode {
        ControlMode::AirQualityOnly => match worst {
            Some(c) => Ok(air_quality_command(c)),
            None => Err(ControlError::NoOperationalSensors),
        },
        ControlMode::PresenceOnly => match presence {
            Some(p) => Ok(presence_command(p)),
            None => Err(ControlError::NoOperationalSensors),
        },
        ControlMode::PresenceAndAirQuality => match (worst, presence) {
            (None, None) => Err(ControlError::NoOperationalSensors),
            (None, Some(p)) => Ok(presence_command(p)),
            (Some(c), None) => Ok(air_quality_command(c)),
            (Some(c), Some(true)) => Ok(air_quality_command(c)),
            (Some(c), Some(false)) => Ok(unoccupied_command(c)),
        },
    }
}

/// `c` is the tier of some sensor's reading, and no reading is dirtier.
pub open spec fn is_worst_tier(s: Seq<AirQualitySensor>, c: AirCleanliness) -> bool {
    &&& exists|i: int| 0 <= i < s.len() && reading_class(#[trigger] s[i]) == Some(c)
    &&& forall|i: int|
        0 <= i < s.len() && (#[trigger] reading_class(s[i])).is_some() ==> cleanliness_rank(c)
            <= cleanliness_rank(reading_class(s[i]).unwrap())
}

/// The aggregate of several air-quality readings is the single worst tier
/// present among them, and there is none only when no sensor has a reading.
pub proof fn lemma_worst_is_minimum(s: Seq<AirQualitySensor>)
    ensures
        worst_of(s).is_none() <==> forall|i: int|
            0 <= i < s.len() ==> (#[trigger] reading_class(s[i])).is_none(),
        worst_of(s) matches Some(c) ==> is_worst_tier(s, c),
    decreases s.len(),
{
    if s.len() > 0 {
        let init = s.drop_last();
        lemma_worst_is_minimum(init);
        assert forall|i: int| 0 <= i < init.len() implies init[i] == s[i] by {}
        let last = s.len() - 1;
        assert(s.last() == s[last]);
        if worst_of(s).is_none() {
            assert forall|i: int| 0 <= i < s.len() implies (#[trigger] reading_class(
                s[i],
            )).is_none() by {
                if i < last {
                    assert(reading_class(init[i]).is_none());
                }
            }
        }
        if forall|i: int| 0 <= i < s.len() ==> (#[trigger] reading_class(s[i])).is_none() {
            assert(reading_class(s[last]).is_none());
            assert forall|i: int| 0 <= i < init.len() implies (#[trigger] reading_class(
                init[i],
            )).is_none() by {
                assert(reading_class(s[i]).is_none());
            }
        }
        if let Some(c) = worst_of(s) {
            match worst_of(init) {
                Some(a) => {
                    let ia = choose|i: int|
                        0 <= i < init.len() && reading_class(#[trigger] init[i]) == Some(a);
                    assert(reading_class(s[ia]) == Some(a));
                    assert forall|i: int|
                        0 <= i < s.len() && (#[trigger] reading_class(s[i])).is_some() implies cleanliness_rank(
                        c,
                    ) <= cleanliness_rank(reading_class(s[i]).unwrap()) by {
                        if i < last {
                            assert(reading_class(init[i]).is_some());
                        }
                    }
                },
                None => {
                    assert(reading_class(s[last]) == Some(c));
                    assert forall|i: int|
                        0 <= i < s.len() && (#[trigger] reading_class(s[i])).is_some() implies cleanliness_rank(
                        c,
                    ) <= cleanliness_rank(reading_class(s[i]).unwrap()) by {
                        if i < last {
                            assert(reading_class(init[i]).is_none());
                        }
                    }
                },
            }
        }
    }
}

/// Aggregating air quality does not depend on the order of the sensors.
pub proof fn lemma_worst_order_independent(a: Seq<AirQualitySensor>, b: Seq<AirQualitySensor>)
    requires
        a.to_multiset() =~= b.to_multiset(),
    ensures
        worst_of(a) == worst_of(b),
{
    broadcast use vstd::seq_lib::group_to_multiset_ensures;

    lemma_worst_is_minimum(a);
    lemma_worst_is_minimum(b);
    assert forall|x: AirQualitySensor| a.contains(x) <==> b.contains(x) by {
        assert(a.to_multiset().count(x) == b.to_multiset().count(x));
    }
    match (worst_of(a), worst_of(b)) {
        (Some(ca), Some(cb)) => {
            let ia = choose|i: int| 0 <= i < a.len() && reading_class(#[trigger] a[i]) == Some(ca);
            let jb = choose|j: int| 0 <= j < b.len() && reading_class(#[trigger] b[j]) == Some(cb);
            assert(a.contains(a[ia]));
            let j = choose|j: int| 0 <= j < b.len() && b[j] == a[ia];
            assert(b.contains(b[jb]));
            let i = choose|i: int| 0 <= i < a.len() && a[i] == b[jb];
            assert(reading_class(b[j]).is_some());
            assert(reading_class(a[i]).is_some());
        },
        (Some(ca), None) => {
            let ia = choose|i: int| 0 <= i < a.len() && reading_class(#[trigger] a[i]) == Some(ca);
            assert(a.contains(a[ia]));
            let j = choose|j: int| 0 <= j < b.len() && b[j] == a[ia];
            assert(reading_class(b[j]).is_none());
        },
        (None, Some(cb)) => {
            let jb = choose|j: int| 0 <= j < b.len() && reading_class(#[trigger] b[j]) == Some(cb);
            assert(b.contains(b[jb]));
            let i = choose|i: int| 0 <= i < a.len() && a[i] == b[jb];
            assert(reading_class(a[i]).is_none());
        },
        (None, None) => {},
    }
}

/// With both kinds of sensor, when no air-quality sensor has a reading and
/// the zone is occupied, the decision is the presence-only one: run at an
/// unchanged speed.
pub proof fn lemma_fallback_to_presence(ps: Seq<PresenceSensor>, aq: Seq<AirQualitySensor>)
    requires
        forall|i: int| 0 <= i < aq.len() ==> (#[trigger] aq[i]).spec_reading().is_none(),
        presence_of(ps) == Some(true),
    ensures
        decide(ControlMode::PresenceAndAirQuality, worst_of(aq), presence_of(ps)) == decide(
            ControlMode::PresenceOnly,
            worst_of(aq),
            presence_of(ps),
        ),
        decide(ControlMode::PresenceAndAirQuality, worst_of(aq), presence_of(ps)) == Ok::<
            ExternalCommand,
            ControlError,
        >(ExternalCommand { fan: Some(run_for_limited()), speed: None }),
{
    lemma_worst_is_minimum(aq);
    assert forall|i: int| 0 <= i < aq.len() implies (#[trigger] reading_class(aq[i])).is_none() by {
        assert(aq[i].spec_reading().is_none());
    }
}

/// With air quality alone and no sensor, evaluation fails for want of sensors.
pub proof fn lemma_air_quality_only_without_sensors(
    ps: Seq<PresenceSensor>,
    aq: Seq<AirQualitySensor>,
)
    requires
        aq.len() == 0,
    ensures
        decide(ControlMode::AirQualityOnly, worst_of(aq), presence_of(ps)) == Err::<
            ExternalCommand,
            ControlError,
        >(ControlError::NoOperationalSensors),
{
}

/// In an unoccupied zone the fan purges at low speed for the fixed run time
/// while the air is very dirty, and stops as soon as it is merely dirty.
pub proof fn lemma_unoccupied_hysteresis(ps: Seq<PresenceSensor>, aq: Seq<AirQualitySensor>)
    requires
        presence_of(ps) == Some(false),
    ensures
        worst_of(aq) == Some(AirCleanliness::VeryDirty) ==> decide(
            ControlMode::PresenceAndAirQuality,
            worst_of(aq),
            presence_of(ps),
        ) == Ok::<ExternalCommand, ControlError>(
            ExternalCommand {
                fan: Some(ExternalFanCommand::RunFor { seconds: 120 }),
                speed: Some(FanSpeed::Low),
            },
        ),
        worst_of(aq) == Some(AirCleanliness::Dirty) ==> decide(
            ControlMode::PresenceAndAirQuality,
            worst_of(aq),
            presence_of(ps),
        ) == Ok::<ExternalCommand, ControlError>(
            ExternalCommand { fan: Some(ExternalFanCommand::Stop), speed: None },
        ),
{
}

/// The worst tier among the sensors' readings.
pub fn get_worst_air_cleanliness(sensors: &[AirQualitySensor]) -> (r: Result<
    AirCleanliness,
    ControlError,
>)
    ensures
        r == (match worst_of(sensors@) {
            Some(c) => Ok::<AirCleanliness, ControlError>(c),
            None => Err(ControlError::NoOperationalSensors),
        }),
{
    let mut worst: Option<AirCleanliness> = None;
    let mut i: usize = 0;
    while i < sensors.len()
        invariant
            i <= sensors@.len(),
            worst == worst_of(sensors@.take(i as int)),
        decreases sensors@.len() - i,
    {
        let class = match sensors[i].reading() {
            Some(r) => r.class,
            None => None,
        };
        worst = match (worst, class) {
            (None, c) => c,
            (Some(a), None) => Some(a),
            (Some(a), Some(b)) => if b.rank() < a.rank() {
                Some(b)
            } else {
                Some(a)
            },
        };
        proof {
            assert(sensors@.take(i + 1).drop_last() =~= sensors@.take(i as int));
        }
        i = i + 1;
    }
    assert(sensors@.take(i as int) =~= sensors@);
    match worst {
        Some(c) => Ok(c),
        None => Err(ControlError::NoOperationalSensors),
    }
}

/// Whether any sensor reports occupancy; an error if no sensor has a reading.
pub fn get_any_presence(sensors: &[PresenceSensor]) -> (r: Result<bool, ControlError>)
    ensures
        r == (match presence_of(sensors@) {
            Some(p) => Ok::<bool, ControlError>(p),
            None => Err(ControlError::NoOperationalSensors),
        }),
{
    let mut seen = false;
    let mut occupied = false;
    let mut i: usize = 0;
    while i < sensors.len()
        invariant
            i <= sensors@.len(),
            seen == has_presence_reading(sensors@.take(i as int)),
            occupied == any_occupied(sensors@.take(i as int)),
        decreases sensors@.len() - i,
    {
        let ghost prefix = sensors@.take(i as int);
        let ghost next = sensors@.take(i + 1);
        match sensors[i].reading() {
            Some(r) => {
                seen = true;
                if r.value == Presence::Occupied {
                    occupied = true;
                }
            },
            None => {},
        }
        proof {
            assert forall|k: int| 0 <= k < i implies next[k] == prefix[k] by {}
            assert(next[i as int] == sensors@[i as int]);
            if has_presence_reading(prefix) {
                let k = choose|k: int| 0 <= k < prefix.len() && (#[trigger] prefix[k]).spec_reading().is_some();
                assert(next[k] == prefix[k]);
            }
            if any_occupied(prefix) {
                let k = choose|k: int| 0 <= k < prefix.len() && reads_occupied(#[trigger] prefix[k]);
                assert(next[k] == prefix[k]);
            }
        }
        i = i + 1;
    }
    assert(sensors@.take(i as int) =~= sensors@);
    if seen {
        Ok(occupied)
    } else {
        Err(ControlError::NoOperationalSensors)
    }
}

fn get_fan_command_for_occupied_air_quality(cleanliness: AirCleanliness) -> (r: ExternalCommand)
    ensures
        r == air_quality_command(cleanliness),
{
    ExternalCommand {
        fan: Some(
            match cleanliness {
                AirCleanliness::Clean => ExternalFanCommand::Stop,
                _ => ExternalFanCommand::RunFor { seconds: RUN_SECONDS },
            },
        ),
        speed: match cleanliness {
            AirCleanliness::VeryDirty => Some(FanSpeed::High),
            AirCleanliness::Dirty => Some(FanSpeed::Medium),
            AirCleanliness::PreDirty => Some(FanSpeed::Low),
            AirCleanliness::Clean => None,
        },
    }
}

fn get_fan_command_for_presence_in_unknown_air_quality(occupied: bool) -> (r: ExternalCommand)
    ensures
        r == presence_command(occupied),
{
    let fan = if occupied {
        ExternalFanCommand::RunFor { seconds: RUN_SECONDS }
    } else {
        ExternalFanCommand::Stop
    };
    ExternalCommand { fan: Some(fan), speed: None }
}

/// Evaluates one cycle of the policy of `mode` over the current readings.
///
/// With presence and air quality, unavailable air quality falls back on
/// presence alone and unavailable presence falls back on air quality alone;
/// an unoccupied zone runs only while its air is very dirty.
pub fn stateless_process(
    mode: ControlMode,
    presence_sensors: &[PresenceSensor],
    air_quality_sensors: &[AirQualitySensor],
) -> (r: Result<ExternalCommand, ControlError>)
    ensures
        r == decide(mode, worst_of(air_quality_sensors@), presence_of(presence_sensors@)),
{
    match mode {
        ControlMode::PresenceAndAirQuality => {
            let cleanliness = match get_worst_air_cleanliness(air_quality_sensors) {
                Ok(v) => v,
                Err(_) => {
                    let presence = get_any_presence(presence_sensors)?;
                    return Ok(get_fan_command_for_presence_in_unknown_air_quality(presence));
                },
            };
            let presence = match get_any_presence(presence_sensors) {
                Ok(v) => v,
                Err(_) => {
                    return Ok(get_fan_command_for_occupied_air_quality(cleanliness));
                },
            };
            if presence {
                Ok(get_fan_command_for_occupied_air_quality(cleanliness))
            } else if cleanliness.rank() <= AirCleanliness::VeryDirty.rank() {
                Ok(
                    ExternalCommand {
                        fan: Some(ExternalFanCommand::RunFor { seconds: RUN_SECONDS }),
                        speed: Some(FanSpeed::Low),
                    },
                )
            } else {
                Ok(ExternalCommand { fan: Some(ExternalFanCommand::Stop), speed: None })
            }
        },
        ControlMode::AirQualityOnly => {
            let cleanliness = get_worst_air_cleanliness(air_quality_sensors)?;
            Ok(get_fan_command_for_occupied_air_quality(cleanliness))
        },
        ControlMode::PresenceOnly => {
            let presence = get_any_presence(presence_sensors)?;
            Ok(get_fan_command_for_presence_in_unknown_air_quality(presence))
        },
    }
}

} // verus!
