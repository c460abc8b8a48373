use esmart_mqtt::discovery::{
    climate_discovery, cover_discovery, fan_discovery, sensor_discovery, state_update,
    switch_discovery, text_state_update,
};
use esmart_mqtt::stats::{DeviceClass, Stat, Unit};
use serde_json::Value;

fn obj(pairs: Vec<(&str, Value)>) -> Value {
    let mut m = serde_json::Map::new();
    for (k, v) in pairs {
        m.insert(k.to_string(), v);
    }
    Value::Object(m)
}

fn s(x: &str) -> Value {
    Value::String(x.to_string())
}

fn device(name: &str, unique: &str) -> Value {
    obj(vec![
        ("name", s(name)),
        ("model", s("eSmarter Client")),
        ("identifiers", Value::Array(vec![s(unique)])),
    ])
}

#[test]
fn sensor_discovery_matches_serde() {
    let stat = Stat::new("Room 1 Temperature", Unit::C, DeviceClass::Temperature, "mdi:thermometer", "temperature");
    let p = sensor_discovery("room_temperature_1", &stat);
    assert_eq!(p.topic, "homeassistant/sensor/esmart/room_temperature_1/config");
    assert!(p.retain);
    let name = "Room 1 Temperature (temperature)";
    let expected = obj(vec![
        ("name", s(name)),
        ("state_topic", s("esmart/room_temperature_1/state")),
        ("icon", s("mdi:thermometer")),
        ("value_template", s("{{ value_json.temperature }}")),
        ("unique_id", s("esmart_room_temperature_1")),
        ("device", device(name, "esmart_room_temperature_1")),
        ("device_class", s("temperature")),
        ("unit_of_measurement", s("°C")),
    ]);
    assert_eq!(p.payload, expected.to_string());

    let stat = Stat::new("Pump \"A\"", Unit::NoUnit, DeviceClass::NoClass, "mdi:valve", "power");
    let p = sensor_discovery("valve_power_2", &stat);
    let name = "Pump \"A\" (power)";
    let expected = obj(vec![
        ("name", s(name)),
        ("state_topic", s("esmart/valve_power_2/state")),
        ("icon", s("mdi:valve")),
        ("value_template", s("{{ value_json.power }}")),
        ("unique_id", s("esmart_valve_power_2")),
        ("device", device(name, "esmart_valve_power_2")),
    ]);
    assert_eq!(p.payload, expected.to_string());
}

#[test]
fn cover_discovery_matches_serde() {
    let p = cover_discovery(7);
    assert_eq!(p.topic, "homeassistant/cover/esmart/actuator_7/config");
    let expected = obj(vec![
        ("name", s("Actuator 7")),
        ("unique_id", s("esmart_actuator_7")),
        ("device", device("eSmart Actuator 7", "esmart_actuator_7")),
        ("icon", s("mdi:window-shutter")),
        ("position_topic", s("esmart/actuator_position_7/state")),
        ("position_template", s("{{ value_json.position | round(0) | int }}")),
        ("set_position_topic", s("esmart/actuator_7_position/set")),
        ("tilt_status_topic", s("esmart/actuator_orientation_7/state")),
        ("tilt_status_template", s("{{ value_json.orientation | round(0) | int }}")),
        ("tilt_command_topic", s("esmart/actuator_7_tilt/set")),
        ("position_open", Value::from(100)),
        ("position_closed", Value::from(0)),
    ]);
    assert_eq!(p.payload, expected.to_string());
}

#[test]
fn climate_discovery_matches_serde() {
    let p = climate_discovery(3);
    assert_eq!(p.topic, "homeassistant/climate/esmart/room_3/config");
    let expected = obj(vec![
        ("name", s("Room 3")),
        ("unique_id", s("esmart_climate_3")),
        ("device", device("eSmart Room 3", "esmart_room_3")),
        ("icon", s("mdi:radiator")),
        ("modes", Value::Array(vec![s("off"), s("heat")])),
        ("mode_command_topic", s("esmart/room_3_mode/set")),
        ("mode_state_template", s("{% if value_json.deviceOnOff == 1.0 %}heat{% else %}off{% endif %}")),
        ("mode_state_topic", s("esmart/room_heating_on_3/state")),
        ("temperature_command_topic", s("esmart/room_3_setpoint/set")),
        ("temperature_state_topic", s("esmart/room_setpoint_3/state")),
        ("temperature_state_template", s("{{ value_json.setpoint }}")),
        ("current_temperature_topic", s("esmart/room_temperature_3/state")),
        ("current_temperature_template", s("{{ value_json.temperature }}")),
        ("min_temp", Value::from(5)),
        ("max_temp", Value::from(30)),
        ("temp_step", Value::from(0.5)),
        ("temperature_unit", s("C")),
    ]);
    assert_eq!(p.payload, expected.to_string());
}

#[test]
fn fan_discovery_matches_serde() {
    let p = fan_discovery(11);
    assert_eq!(p.topic, "homeassistant/fan/esmart/fan_11/config");
    let expected = obj(vec![
        ("name", s("Fan 11")),
        ("unique_id", s("esmart_fan_11")),
        ("device", device("eSmart Fan 11", "esmart_fan_11")),
        ("icon", s("mdi:fan")),
        ("command_topic", s("esmart/fan_11_onoff/set")),
        ("state_topic", s("esmart/fan_power_11/state")),
        ("state_value_template", s("{% if value_json.power > 0 %}ON{% else %}OFF{% endif %}")),
        ("percentage_command_topic", s("esmart/fan_11_speed/set")),
        ("preset_mode_command_topic", s("esmart/fan_11_mode/set")),
        ("preset_modes", Value::Array(vec![s("auto"), s("manual")])),
    ]);
    assert_eq!(p.payload, expected.to_string());
}

#[test]
fn switch_discovery_matches_serde() {
    let p = switch_discovery("holiday_mode", "Holiday Mode", "mdi:beach", "holiday_mode");
    assert_eq!(p.topic, "homeassistant/switch/esmart/holiday_mode/config");
    let expected = obj(vec![
        ("name", s("Holiday Mode")),
        ("unique_id", s("esmart_holiday_mode")),
        ("device", device("eSmart Holiday Mode", "esmart_holiday_mode")),
        ("icon", s("mdi:beach")),
        ("command_topic", s("esmart/holiday_mode/set")),
        ("state_topic", s("esmart/holiday_mode/state")),
        ("value_template", s("{% if value_json.holiday_mode == 1.0 %}ON{% else %}OFF{% endif %}")),
        ("payload_on", s("ON")),
        ("payload_off", s("OFF")),
    ]);
    assert_eq!(p.payload, expected.to_string());
}

#[test]
fn state_updates() {
    let p = state_update("room_temperature_1", "temperature", &Value::from(20.5f32).to_string());
    assert_eq!(p.topic, "esmart/room_temperature_1/state");
    assert!(!p.retain);
    assert_eq!(p.payload, obj(vec![("temperature", Value::from(20.5f32))]).to_string());
    let p = text_state_update("fan_mode_1", "mode", "au\"to\n");
    assert_eq!(p.payload, obj(vec![("mode", s("au\"to\n"))]).to_string());
}
