use ms_air_filter::air_quality::{AirCleanliness, AirQualitySensor, AirQualitySensorConfig};
use ms_air_filter::control_logic::{get_any_presence, get_worst_air_cleanliness, stateless_process, ControlMode};
use ms_air_filter::presence::{PresenceSensor, PresenceSensorConfig};
use ms_air_filter::protocol::{ExternalCommand, ExternalFanCommand, FanSpeed};
use ms_air_filter::reading::{ControlError, Message};

fn msg(topic: &str, payload: &[u8]) -> Message {
    Message { topic: topic.to_string(), payload: payload.to_vec() }
}

fn air_quality_sensor(topic: &str) -> AirQualitySensor {
    AirQualitySensorConfig {
        topic: topic.into(),
        pre_dirty_threshold: 8_000,
        dirty_threshold: 15_000,
        very_dirty_threshold: 50_000,
    }
    .into()
}

fn presence_sensor(topic: &str, timeout: u64) -> PresenceSensor {
    PresenceSensorConfig { name: topic.into(), topic: topic.into(), timeout }.into()
}

fn run(speed: Option<FanSpeed>) -> ExternalCommand {
    ExternalCommand { fan: Some(ExternalFanCommand::RunFor { seconds: 120 }), speed }
}

fn stop() -> ExternalCommand {
    ExternalCommand { fan: Some(ExternalFanCommand::Stop), speed: None }
}

#[test]
fn presence_and_air_quality_clean_and_occupied_idle() {
    let mut presence_sensors: Vec<PresenceSensor> = vec![presence_sensor("a", 0)];
    let mut air_quality_sensors: Vec<AirQualitySensor> = vec![air_quality_sensor("a")];

    presence_sensors.first_mut().unwrap().update_via_mqtt_message(&msg("a", b"on"), 0).unwrap();
    air_quality_sensors.first_mut().unwrap().update_via_mqtt_message(&msg("a", b"5"), 0).unwrap();

    let ret = stateless_process(
        ControlMode::PresenceAndAirQuality,
        &presence_sensors,
        &air_quality_sensors,
    )
    .unwrap();

    assert_eq!(ret, ExternalCommand { fan: Some(ExternalFanCommand::Stop), speed: None });
}

#[test]
fn air_quality_only_no_sensors() {
    let air_quality_sensors = vec![air_quality_sensor("a")];

    let ret = stateless_process(ControlMode::AirQualityOnly, &Vec::new(), &air_quality_sensors);

    assert!(ret.is_err());
}

#[test]
fn air_quality_only_zero_sensors_configured() {
    let ret = stateless_process(ControlMode::AirQualityOnly, &Vec::new(), &Vec::new());
    assert_eq!(ret, Err(ControlError::NoOperationalSensors));
}

#[test]
fn air_quality_only_idle() {
    let mut air_quality_sensors: Vec<AirQualitySensor> = vec![air_quality_sensor("a")];
    air_quality_sensors.first_mut().unwrap().update_via_mqtt_message(&msg("a", b"5"), 0).unwrap();

    let ret = stateless_process(ControlMode::AirQualityOnly, &Vec::new(), &air_quality_sensors).unwrap();

    assert_eq!(ret, ExternalCommand { fan: Some(ExternalFanCommand::Stop), speed: None });
}

#[test]
fn air_quality_only_pre_dirty() {
    let mut air_quality_sensors: Vec<AirQualitySensor> = vec![air_quality_sensor("a")];
    air_quality_sensors.first_mut().unwrap().update_via_mqtt_message(&msg("a", b"9"), 0).unwrap();

    let ret = stateless_process(ControlMode::AirQualityOnly, &Vec::new(), &air_quality_sensors).unwrap();

    assert_eq!(
        ret,
        ExternalCommand {
            fan: Some(ExternalFanCommand::RunFor { seconds: 120 }),
            speed: Some(FanSpeed::Low)
        }
    );
}

#[test]
fn air_quality_only_dirty() {
    let mut air_quality_sensors: Vec<AirQualitySensor> = vec![air_quality_sensor("a")];
    air_quality_sensors.first_mut().unwrap().update_via_mqtt_message(&msg("a", b"18.1"), 0).unwrap();

    let ret = stateless_process(ControlMode::AirQualityOnly, &Vec::new(), &air_quality_sensors).unwrap();

    assert_eq!(
        ret,
        ExternalCommand {
            fan: Some(ExternalFanCommand::RunFor { seconds: 120 }),
            speed: Some(FanSpeed::Medium)
        }
    );
}

#[test]
fn air_quality_only_very_dirty() {
    let mut air_quality_sensors: Vec<AirQualitySensor> = vec![air_quality_sensor("a")];
    air_quality_sensors.first_mut().unwrap().update_via_mqtt_message(&msg("a", b"50.1"), 0).unwrap();

    let ret = stateless_process(ControlMode::AirQualityOnly, &Vec::new(), &air_quality_sensors).unwrap();

    assert_eq!(
        ret,
        ExternalCommand {
            fan: Some(ExternalFanCommand::RunFor { seconds: 120 }),
            speed: Some(FanSpeed::High)
        }
    );
}

#[test]
fn presence_only_no_sensors() {
    let presence_sensors = vec![presence_sensor("a", 20)];

    let ret = stateless_process(ControlMode::PresenceOnly, &presence_sensors, &Vec::new());

    assert!(ret.is_err());
}

#[test]
fn presence_only_idle() {
    let mut presence_sensors: Vec<PresenceSensor> = vec![presence_sensor("a", 0)];

    presence_sensors.first_mut().unwrap().update_via_mqtt_message(&msg("a", b"on"), 0).unwrap();

    presence_sensors.first_mut().unwrap().update_via_time(2_000).unwrap();

    let ret = stateless_process(ControlMode::PresenceOnly, &presence_sensors, &Vec::new()).unwrap();

    assert_eq!(ret, ExternalCommand { fan: Some(ExternalFanCommand::Stop), speed: None });
}

#[test]
fn presence_only_run() {
    let mut presence_sensors: Vec<PresenceSensor> = vec![presence_sensor("a", 20)];

    presence_sensors.first_mut().unwrap().update_via_mqtt_message(&msg("a", b"on"), 0).unwrap();

    let ret = stateless_process(ControlMode::PresenceOnly, &presence_sensors, &Vec::new()).unwrap();

    assert_eq!(
        ret,
        ExternalCommand { fan: Some(ExternalFanCommand::RunFor { seconds: 120 }), speed: None }
    );
}

#[test]
fn worst_tier_regardless_of_order() {
    let mut sensors = vec![air_quality_sensor("a"), air_quality_sensor("b"), air_quality_sensor("c")];
    sensors[0].update_via_mqtt_message(&msg("a", b"9"), 0).unwrap();
    sensors[1].update_via_mqtt_message(&msg("b", b"51"), 0).unwrap();
    sensors[2].update_via_mqtt_message(&msg("c", b"1"), 0).unwrap();
    assert_eq!(get_worst_air_cleanliness(&sensors), Ok(AirCleanliness::VeryDirty));
    sensors.reverse();
    assert_eq!(get_worst_air_cleanliness(&sensors), Ok(AirCleanliness::VeryDirty));
    sensors.swap(0, 1);
    assert_eq!(get_worst_air_cleanliness(&sensors), Ok(AirCleanliness::VeryDirty));
}

#[test]
fn worst_tier_skips_sensors_without_reading() {
    let mut sensors = vec![air_quality_sensor("a"), air_quality_sensor("b")];
    assert_eq!(get_worst_air_cleanliness(&sensors), Err(ControlError::NoOperationalSensors));
    sensors[1].update_via_mqtt_message(&msg("b", b"16"), 0).unwrap();
    assert_eq!(get_worst_air_cleanliness(&sensors), Ok(AirCleanliness::Dirty));
}

#[test]
fn any_presence_is_or_of_readings() {
    let mut sensors = vec![presence_sensor("a", 0), presence_sensor("b", 100)];
    assert_eq!(get_any_presence(&sensors), Err(ControlError::NoOperationalSensors));
    sensors[0].update_via_mqtt_message(&msg("a", b"on"), 0).unwrap();
    sensors[0].update_via_time(0).unwrap();
    assert_eq!(get_any_presence(&sensors), Ok(false));
    sensors[1].update_via_mqtt_message(&msg("b", b"on"), 10).unwrap();
    assert_eq!(get_any_presence(&sensors), Ok(true));
}

#[test]
fn air_quality_unavailable_falls_back_on_presence() {
    let mut presence_sensors = vec![presence_sensor("p", 60)];
    let air_quality_sensors = vec![air_quality_sensor("a")];
    presence_sensors[0].update_via_mqtt_message(&msg("p", b"on"), 0).unwrap();

    let both = stateless_process(ControlMode::PresenceAndAirQuality, &presence_sensors, &air_quality_sensors);
    let only = stateless_process(ControlMode::PresenceOnly, &presence_sensors, &air_quality_sensors);
    assert_eq!(both, Ok(run(None)));
    assert_eq!(both, only);
}

#[test]
fn presence_unavailable_falls_back_on_air_quality() {
    let presence_sensors = vec![presence_sensor("p", 60)];
    let mut air_quality_sensors = vec![air_quality_sensor("a")];
    air_quality_sensors[0].update_via_mqtt_message(&msg("a", b"20"), 0).unwrap();
    let ret = stateless_process(ControlMode::PresenceAndAirQuality, &presence_sensors, &air_quality_sensors);
    assert_eq!(ret, Ok(run(Some(FanSpeed::Medium))));
}

#[test]
fn nothing_available_is_an_error() {
    let presence_sensors = vec![presence_sensor("p", 60)];
    let air_quality_sensors = vec![air_quality_sensor("a")];
    let ret = stateless_process(ControlMode::PresenceAndAirQuality, &presence_sensors, &air_quality_sensors);
    assert_eq!(ret, Err(ControlError::NoOperationalSensors));
}

#[test]
fn unoccupied_hysteresis_boundary() {
    let mut presence_sensors = vec![presence_sensor("p", 0)];
    let mut air_quality_sensors = vec![air_quality_sensor("a")];
    presence_sensors[0].update_via_mqtt_message(&msg("p", b"on"), 0).unwrap();
    presence_sensors[0].update_via_time(1_000).unwrap();

    air_quality_sensors[0].update_via_mqtt_message(&msg("a", b"50"), 0).unwrap();
    let ret = stateless_process(ControlMode::PresenceAndAirQuality, &presence_sensors, &air_quality_sensors);
    assert_eq!(ret, Ok(run(Some(FanSpeed::Low))));

    air_quality_sensors[0].update_via_mqtt_message(&msg("a", b"49.999"), 0).unwrap();
    let ret = stateless_process(ControlMode::PresenceAndAirQuality, &presence_sensors, &air_quality_sensors);
    assert_eq!(ret, Ok(stop()));
}

#[test]
fn occupied_follows_air_quality() {
    let mut presence_sensors = vec![presence_sensor("p", 60)];
    let mut air_quality_sensors = vec![air_quality_sensor("a")];
    presence_sensors[0].update_via_mqtt_message(&msg("p", b"on"), 0).unwrap();
    air_quality_sensors[0].update_via_mqtt_message(&msg("a", b"60"), 0).unwrap();
    let ret = stateless_process(ControlMode::PresenceAndAirQuality, &presence_sensors, &air_quality_sensors);
    assert_eq!(ret, Ok(run(Some(FanSpeed::High))));
}
