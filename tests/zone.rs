use ms_air_filter::air_filter::{AirFilter, AirFilterConfig};
use ms_air_filter::air_quality::AirQualitySensorConfig;
use ms_air_filter::control_logic::ControlMode;
use ms_air_filter::presence::PresenceSensorConfig;
use ms_air_filter::protocol::{ExternalCommand, ExternalFanCommand, FanSpeed};
use ms_air_filter::reading::{ControlError, Message, Update};
use ms_air_filter::zone::{update_zones_via_mqtt_message, update_zones_via_time, Zone, ZoneConfig};

fn msg(topic: &str, payload: &[u8]) -> Message {
    Message { topic: topic.to_string(), payload: payload.to_vec() }
}

fn air_quality(topic: &str) -> AirQualitySensorConfig {
    AirQualitySensorConfig {
        topic: topic.into(),
        pre_dirty_threshold: 8_000,
        dirty_threshold: 15_000,
        very_dirty_threshold: 50_000,
    }
}

fn presence(topic: &str, timeout: u64) -> PresenceSensorConfig {
    PresenceSensorConfig { name: topic.into(), topic: topic.into(), timeout }
}

fn zone_config(
    name: &str,
    presence: Vec<PresenceSensorConfig>,
    air_quality: Vec<AirQualitySensorConfig>,
) -> ZoneConfig {
    ZoneConfig {
        name: name.into(),
        filter: AirFilterConfig { command_topic: format!("{name}/command") },
        presence,
        air_quality,
    }
}

#[test]
fn zone_without_sensors_is_rejected() {
    let r = Zone::new(zone_config("empty", vec![], vec![]));
    assert!(matches!(r, Err(ControlError::ConfigurationInvariantViolation)));
}

#[test]
fn zone_mode_follows_sensor_kinds() {
    let both = Zone::new(zone_config("z", vec![presence("p", 1)], vec![air_quality("a")])).ok().unwrap();
    assert_eq!(both.mode(), ControlMode::PresenceAndAirQuality);
    let p = Zone::new(zone_config("z", vec![presence("p", 1)], vec![])).ok().unwrap();
    assert_eq!(p.mode(), ControlMode::PresenceOnly);
    let a = Zone::new(zone_config("z", vec![], vec![air_quality("a")])).ok().unwrap();
    assert_eq!(a.mode(), ControlMode::AirQualityOnly);
    assert_eq!(a.name(), "z");
    assert_eq!(a.filter().command_topic(), "z/command");
}

#[test]
fn zone_subscriptions_presence_first() {
    let z = Zone::new(zone_config(
        "z",
        vec![presence("hall", 1), presence("desk", 1)],
        vec![air_quality("air")],
    ))
    .ok()
    .unwrap();
    assert_eq!(z.mqtt_subscriptions(), vec!["hall".to_string(), "desk".to_string(), "air".to_string()]);
}

#[test]
fn end_to_end_example() {
    let mut zone = Zone::new(zone_config("z", vec![presence("p", 0)], vec![air_quality("a")])).ok().unwrap();
    assert_eq!(zone.update_via_mqtt_message(&msg("p", b"on"), 0), Update::Updated);
    assert_eq!(zone.update_via_mqtt_message(&msg("a", b"5"), 0), Update::Updated);
    assert_eq!(
        zone.evaluate(),
        Ok(ExternalCommand { fan: Some(ExternalFanCommand::Stop), speed: None })
    );

    let mut aq_only = Zone::new(zone_config("q", vec![], vec![air_quality("a")])).ok().unwrap();
    aq_only.update_via_mqtt_message(&msg("a", b"9"), 0);
    assert_eq!(
        aq_only.evaluate(),
        Ok(ExternalCommand {
            fan: Some(ExternalFanCommand::RunFor { seconds: 120 }),
            speed: Some(FanSpeed::Low)
        })
    );
    aq_only.update_via_mqtt_message(&msg("a", b"50.1"), 0);
    assert_eq!(
        aq_only.evaluate(),
        Ok(ExternalCommand {
            fan: Some(ExternalFanCommand::RunFor { seconds: 120 }),
            speed: Some(FanSpeed::High)
        })
    );
}

#[test]
fn zone_sends_identical_commands_once() {
    let mut zone = Zone::new(zone_config("z", vec![presence("p", 60)], vec![])).ok().unwrap();
    zone.update_via_mqtt_message(&msg("p", b"on"), 0);
    let first = zone.evaluate_and_send_command().unwrap();
    let expected = ExternalCommand { fan: Some(ExternalFanCommand::RunFor { seconds: 120 }), speed: None };
    assert_eq!(first, Some(expected));
    zone.command_delivered(expected);
    assert_eq!(zone.evaluate_and_send_command(), Ok(None));
}

#[test]
fn zone_without_readings_skips_the_cycle() {
    let zone = Zone::new(zone_config("z", vec![presence("p", 60)], vec![air_quality("a")])).ok().unwrap();
    assert_eq!(zone.evaluate_and_send_command(), Err(ControlError::NoOperationalSensors));
}

#[test]
fn air_filter_drops_repeats() {
    let mut filter = AirFilter::new(AirFilterConfig { command_topic: "t".into() });
    let stop = ExternalCommand { fan: Some(ExternalFanCommand::Stop), speed: None };
    let low = ExternalCommand { fan: None, speed: Some(FanSpeed::Low) };
    assert_eq!(filter.command(stop), Some(stop));
    filter.command_delivered(stop);
    assert_eq!(filter.command(stop), None);
    assert_eq!(filter.command(low), Some(low));
}

#[test]
fn zones_update_via_message_and_time() {
    let mut zones = vec![
        Zone::new(zone_config("z1", vec![presence("hall", 10)], vec![])).ok().unwrap(),
        Zone::new(zone_config("z2", vec![presence("desk", 20)], vec![air_quality("air2")])).ok().unwrap(),
    ];
    assert_eq!(update_zones_via_mqtt_message(&mut zones, &msg("nobody", b"on"), 0), Update::NotUpdated);
    assert_eq!(update_zones_via_mqtt_message(&mut zones, &msg("desk", b"on"), 0), Update::Updated);
    assert_eq!(update_zones_via_mqtt_message(&mut zones, &msg("air2", b"bad"), 0), Update::NotUpdated);
    assert_eq!(update_zones_via_time(&mut zones, 19_999), Update::NotUpdated);
    assert_eq!(zones[1].evaluate_and_send_command(), Ok(Some(ExternalCommand {
        fan: Some(ExternalFanCommand::RunFor { seconds: 120 }),
        speed: None
    })));
    assert_eq!(update_zones_via_time(&mut zones, 20_000), Update::Updated);
    assert_eq!(
        zones[1].evaluate(),
        Ok(ExternalCommand { fan: Some(ExternalFanCommand::Stop), speed: None })
    );
    assert_eq!(zones[0].evaluate(), Err(ControlError::NoOperationalSensors));
}
