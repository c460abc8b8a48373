use esmart_mqtt::discovery::{climate_discovery, cover_discovery, fan_discovery, switch_discovery};
use esmart_mqtt::commands::{
    classify_mqtt_command, parse_mqtt_command, parse_mqtt_command_at, set_freecooling_at,
    set_holiday_mode_at, set_node_at, CommandRequest, FanMode, FieldValue, NodeField, NumberText,
    PayloadNumber, fan_mode_lower, room_mode_lower, switch_on_upper,
};
use serde_json::Value;

fn obj(pairs: Vec<(&str, Value)>) -> Value {
    let mut m = serde_json::Map::new();
    for (k, v) in pairs {
        m.insert(k.to_string(), v);
    }
    Value::Object(m)
}

fn s(x: &str) -> Value {
    Value::String(x.to_string())
}

/// The message as serde_json renders it, for a body.
fn expected_message(jid: &str, ts: &str, body: Value) -> String {
    let body_str = body.to_string();
    let headers = obj(vec![
        ("from", s(jid)),
        ("to", s("master")),
        ("timestamp", s(ts)),
        ("method", s("SET")),
        ("type", s("data")),
        ("version", s("1.19.0")),
        ("size", Value::from(body_str.len())),
    ]);
    obj(vec![("headers", headers), ("body", body)]).to_string()
}

fn node_body(id: u16, key: &str, value: Value) -> Value {
    obj(vec![(
        "nodes",
        Value::Array(vec![obj(vec![("id", Value::from(id)), ("data", obj(vec![(key, value)]))])]),
    )])
}

fn number(raw: f32) -> PayloadNumber {
    let clamped = raw.clamp(0.0, 100.0);
    PayloadNumber {
        raw: NumberText { json: Value::from(raw).to_string(), display: format!("{}", raw) },
        clamped: NumberText {
            json: Value::from(clamped).to_string(),
            display: format!("{}", clamped),
        },
    }
}

const JID: &str = "user@myesmart.net";
const TS: &str = "2024-01-02 03:04:05+0000";

#[test]
fn holiday_mode_message_matches_serde() {
    let got = set_holiday_mode_at(JID, TS, true);
    let body = obj(vec![("holiday_mode", obj(vec![("onoff", s("on"))]))]);
    assert_eq!(got, expected_message(JID, TS, body));
    let got = set_holiday_mode_at(JID, TS, false);
    let body = obj(vec![("holiday_mode", obj(vec![("onoff", s("off"))]))]);
    assert_eq!(got, expected_message(JID, TS, body));
}

#[test]
fn freecooling_message_matches_serde() {
    let got = set_freecooling_at(JID, TS, true);
    let body = obj(vec![("freecooling", obj(vec![("onoff", s("on"))]))]);
    assert_eq!(got, expected_message(JID, TS, body));
}

#[test]
fn set_node_message_matches_serde() {
    let field = NodeField { key: "speed".to_string(), value: FieldValue::Text("7\"5%".to_string()) };
    let got = set_node_at("j\u{e9}\"x", TS, 65535, &field);
    assert_eq!(got, expected_message("j\u{e9}\"x", TS, node_body(65535, "speed", s("7\"5%"))));
    let field = NodeField { key: "setpoint".to_string(), value: FieldValue::Raw("21.5".to_string()) };
    let got = set_node_at(JID, TS, 3, &field);
    assert_eq!(got, expected_message(JID, TS, node_body(3, "setpoint", Value::from(21.5f32))));
}

#[test]
fn size_counts_bytes_of_body() {
    let field = NodeField { key: "mode".to_string(), value: FieldValue::Text("é°".to_string()) };
    let got = set_node_at(JID, TS, 1, &field);
    let body = node_body(1, "mode", s("é°"));
    let len = body.to_string().len();
    assert!(got.contains(&format!("\"size\":{}", len)));
    assert_eq!(got, expected_message(JID, TS, body));
}

#[test]
fn readme_room_setpoint_command() {
    let n = number(21.5);
    let cmd = parse_mqtt_command_at(JID, TS, "esmart/room_1_setpoint/set", "21.5", &Some(n)).unwrap();
    assert_eq!(cmd.xmpp_payload, expected_message(JID, TS, node_body(1, "setpoint", Value::from(21.5f32))));
    assert_eq!(cmd.description, "Set room 1 setpoint to 21.5°C");
}

#[test]
fn readme_actuator_commands_clamp() {
    let cmd = parse_mqtt_command_at(JID, TS, "esmart/actuator_1_position/set", "50", &Some(number(50.0))).unwrap();
    assert_eq!(cmd.xmpp_payload, expected_message(JID, TS, node_body(1, "position", Value::from(50.0f32))));
    assert_eq!(cmd.description, "Set actuator 1 position to 50%");
    let cmd = parse_mqtt_command_at(JID, TS, "esmart/actuator_1_tilt/set", "175", &Some(number(175.0))).unwrap();
    assert_eq!(cmd.xmpp_payload, expected_message(JID, TS, node_body(1, "orientation", Value::from(100.0f32))));
    assert_eq!(cmd.description, "Set actuator 1 orientation to 100%");
}

#[test]
fn readme_fan_commands() {
    let cmd = parse_mqtt_command_at(JID, TS, "esmart/fan_1_onoff/set", "ON", &None).unwrap();
    assert_eq!(cmd.xmpp_payload, expected_message(JID, TS, node_body(1, "speed", s("50%"))));
    assert_eq!(cmd.description, "Set fan 1 to on (speed 50%)");
    let cmd = parse_mqtt_command_at(JID, TS, "esmart/fan_1_onoff/set", "off", &None).unwrap();
    assert_eq!(cmd.description, "Set fan 1 to off (speed 0%)");
    let cmd = parse_mqtt_command_at(JID, TS, "esmart/fan_1_speed/set", "75%", &None).unwrap();
    assert_eq!(cmd.xmpp_payload, expected_message(JID, TS, node_body(1, "speed", s("75%"))));
    assert_eq!(cmd.description, "Set fan 1 speed to 75%");
    let cmd = parse_mqtt_command_at(JID, TS, "esmart/fan_1_speed/set", " 250 ", &None).unwrap();
    assert_eq!(cmd.description, "Set fan 1 speed to 100%");
    let cmd = parse_mqtt_command_at(JID, TS, "esmart/fan_1_mode/set", "AUTO", &None).unwrap();
    assert_eq!(cmd.xmpp_payload, expected_message(JID, TS, node_body(1, "mode", s("auto"))));
    assert_eq!(cmd.description, "Set fan 1 mode to auto");
}

#[test]
fn readme_switch_commands() {
    let cmd = parse_mqtt_command_at(JID, TS, "esmart/holiday_mode/set", "ON", &None).unwrap();
    assert_eq!(cmd.description, "Set holiday mode to on");
    let cmd = parse_mqtt_command_at(JID, TS, "esmart/freecooling/set", " true\n", &None).unwrap();
    assert_eq!(cmd.description, "Set freecooling to on");
    let cmd = parse_mqtt_command_at(JID, TS, "esmart/freecooling/set", "yes", &None).unwrap();
    assert_eq!(cmd.description, "Set freecooling to off");
}

#[test]
fn room_mode_command() {
    let cmd = parse_mqtt_command_at(JID, TS, "esmart/room_12_mode/set", "Heat", &None).unwrap();
    assert_eq!(cmd.xmpp_payload, expected_message(JID, TS, node_body(12, "deviceOnOff", s("on"))));
    assert_eq!(cmd.description, "Set room 12 heating to on");
    assert!(parse_mqtt_command_at(JID, TS, "esmart/room_12_mode/set", "cool", &None).is_none());
}

#[test]
fn unrecognised_commands() {
    for topic in [
        "esmart/room_1_setpoint",
        "esmart/room_x_mode/set",
        "esmart/a/b/set",
        "other/holiday_mode/set",
        "esmart/room_70000_mode/set",
        "esmart/room_-1_mode/set",
        "esmart/light_1/set",
        "esmart//set",
    ] {
        assert!(parse_mqtt_command_at(JID, TS, topic, "heat", &None).is_none(), "{}", topic);
    }
    // setpoint, position and tilt need a number
    assert!(parse_mqtt_command_at(JID, TS, "esmart/room_1_setpoint/set", "warm", &None).is_none());
    assert!(parse_mqtt_command_at(JID, TS, "esmart/fan_1_speed/set", "fast", &None).is_none());
    assert!(parse_mqtt_command_at(JID, TS, "esmart/fan_1_mode/set", "turbo", &None).is_none());
}

#[test]
fn node_ids_accept_plus_and_leading_zeros() {
    let q = classify_mqtt_command("esmart/room_+007_mode/set", "off", false).unwrap();
    assert!(matches!(q, CommandRequest::RoomMode(7, false)));
    let q = classify_mqtt_command("esmart/fan_2_mode/set", "Manual", false).unwrap();
    assert!(matches!(q, CommandRequest::FanMode(2, FanMode::Manual)));
}

#[test]
fn command_now_has_a_timestamp() {
    let cmd = parse_mqtt_command(JID, "esmart/holiday_mode/set", "1", &None).unwrap();
    assert!(cmd.xmpp_payload.starts_with("{\"body\":{\"holiday_mode\":{\"onoff\":\"on\"}},\"headers\":{\"from\":\"user@myesmart.net\""));
    let v: Value = serde_json::from_str(&cmd.xmpp_payload).unwrap();
    let ts = v["headers"]["timestamp"].as_str().unwrap();
    assert!(esmart_mqtt::time::parse_timestamp(ts).is_some(), "{}", ts);
    // YYYY-MM-DD HH:MM:SS+0000
    let c: Vec<char> = ts.chars().collect();
    assert_eq!(c.len(), 24, "{}", ts);
    for (k, ch) in c.iter().enumerate() {
        match k {
            4 | 7 => assert_eq!(*ch, '-'),
            10 => assert_eq!(*ch, ' '),
            13 | 16 => assert_eq!(*ch, ':'),
            19 => assert_eq!(*ch, '+'),
            _ => assert!(ch.is_ascii_digit(), "{}", ts),
        }
    }
    assert!(ts.ends_with("+0000"));
}

#[test]
fn case_mapping_of_payloads() {
    let q = classify_mqtt_command("esmart/holiday_mode/set", "tRuE", false).unwrap();
    assert!(matches!(q, CommandRequest::HolidayMode(true)));
    // "ı" (dotless i) upper-cases to "I": not one of the "on" words
    let q = classify_mqtt_command("esmart/holiday_mode/set", "on\u{131}", false).unwrap();
    assert!(matches!(q, CommandRequest::HolidayMode(false)));
    let q = classify_mqtt_command("esmart/room_1_mode/set", "OFF", false).unwrap();
    assert!(matches!(q, CommandRequest::RoomMode(1, false)));
}

fn string_field(v: &Value, key: &str) -> String {
    v.get(key).and_then(|x| x.as_str()).unwrap().to_string()
}

#[test]
fn announced_command_topics_are_recognised() {
    for n in [0u16, 7, 65535] {
        let climate: Value = serde_json::from_str(&climate_discovery(n).payload).unwrap();
        let t = string_field(&climate, "mode_command_topic");
        assert!(matches!(classify_mqtt_command(&t, "heat", false), Some(CommandRequest::RoomMode(m, true)) if m == n));
        let t = string_field(&climate, "temperature_command_topic");
        assert!(matches!(classify_mqtt_command(&t, "20", true), Some(CommandRequest::RoomSetpoint(m)) if m == n));
        let cover: Value = serde_json::from_str(&cover_discovery(n).payload).unwrap();
        let t = string_field(&cover, "set_position_topic");
        assert!(matches!(classify_mqtt_command(&t, "20", true), Some(CommandRequest::ActuatorPosition(m)) if m == n));
        let t = string_field(&cover, "tilt_command_topic");
        assert!(matches!(classify_mqtt_command(&t, "20", true), Some(CommandRequest::ActuatorTilt(m)) if m == n));
        let fan: Value = serde_json::from_str(&fan_discovery(n).payload).unwrap();
        let t = string_field(&fan, "command_topic");
        assert!(matches!(classify_mqtt_command(&t, "ON", false), Some(CommandRequest::FanOnOff(m, true)) if m == n));
        let t = string_field(&fan, "percentage_command_topic");
        assert!(matches!(classify_mqtt_command(&t, "40", false), Some(CommandRequest::FanSpeed(m, ref s)) if m == n && s == "40%"));
        let t = string_field(&fan, "preset_mode_command_topic");
        assert!(matches!(classify_mqtt_command(&t, "auto", false), Some(CommandRequest::FanMode(m, FanMode::Auto)) if m == n));
    }
    let sw: Value = serde_json::from_str(&switch_discovery("freecooling", "Freecooling", "mdi:snowflake", "freecooling").payload).unwrap();
    let t = string_field(&sw, "command_topic");
    assert!(matches!(classify_mqtt_command(&t, "ON", false), Some(CommandRequest::Freecooling(true))));
}

#[test]
fn words_after_case_mapping() {
    assert!(switch_on_upper("ON"));
    assert!(switch_on_upper("1"));
    assert!(switch_on_upper("TRUE"));
    assert!(!switch_on_upper("on"));
    assert!(!switch_on_upper("OFF"));
    assert!(!switch_on_upper(""));
    assert_eq!(room_mode_lower("heat"), Some(true));
    assert_eq!(room_mode_lower("on"), Some(true));
    assert_eq!(room_mode_lower("off"), Some(false));
    assert_eq!(room_mode_lower("HEAT"), None);
    assert_eq!(room_mode_lower("cool"), None);
    assert_eq!(fan_mode_lower("auto"), Some(FanMode::Auto));
    assert_eq!(fan_mode_lower("manual"), Some(FanMode::Manual));
    assert_eq!(fan_mode_lower("Auto"), None);
}
