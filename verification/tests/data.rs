use esmart_mqtt::data::{
    skip_message, ActuatorData, Body, ESmartMessage, FanData, Freecooling, Headers, HolidayMode,
    Meter, Node, OnOff, RoomData, ValveData,
};
use esmart_mqtt::stats::{DeviceClass, IterStats, StatEntry, StatValue, Unit};
use esmart_mqtt::time::{parse_timestamp, UtcTime};

fn check(e: &StatEntry<f32>, id: &str, name: &str, unit: Unit, dc: DeviceClass, icon: &str, prop: &str) {
    assert_eq!(e.0, id);
    assert_eq!(e.1.name(), name);
    assert_eq!(e.1.unit(), unit);
    assert_eq!(e.1.device_class(), dc);
    assert_eq!(e.1.icon(), icon);
    assert_eq!(e.1.property(), prop);
}

fn float(v: &StatValue<f32>) -> f32 {
    match v {
        StatValue::Float(x) => *x,
        _ => panic!("not a float"),
    }
}

#[test]
fn on_off_conversions() {
    assert!(bool::from(&OnOff::On));
    assert!(!bool::from(&OnOff::Off));
    assert_eq!(OnOff::default(), OnOff::Off);
    assert_eq!(HolidayMode::default().onoff, OnOff::Off);
    assert_eq!(Freecooling::default().onoff, OnOff::Off);
}

#[test]
fn meter_stats() {
    let m = Meter::Flow { id: 4, name: "Water".to_string(), flow_rate: 2.5f32 };
    assert_eq!(m.reading(), 2.5);
    let v = (&m).into_stats_iter();
    assert_eq!(v.len(), 1);
    check(&v[0], "flow_4", "Water", Unit::Lmin, DeviceClass::Water, "mdi:pipe", "flow_rate");
    assert_eq!(float(&v[0].2), 2.5);
    let m = Meter::Power { id: 1, name: "Grid".to_string(), power: 300.0f32 };
    let v = (&m).into_stats_iter();
    check(&v[0], "power_1", "Grid", Unit::W, DeviceClass::Power, "mdi:lightning-bolt", "power");
    let m = Meter::Temperature { id: 9, temperature: -3.0f32 };
    let v = (&m).into_stats_iter();
    check(&v[0], "temperature_9", "General Temperature", Unit::C, DeviceClass::Temperature, "mdi:thermometer", "temperature");
    assert_eq!(float(&v[0].2), -3.0);
}

fn percent(x: f32) -> f32 {
    ((1024.0 - x) / 1024.0 * 100.0).round()
}

#[test]
fn node_stats() {
    let room = Node::Room {
        id: 2,
        data: RoomData { device_on_off: OnOff::On, power: 40.0, setpoint: 21.0, temperature: 20.5 },
    };
    let v = room.stats(percent);
    assert_eq!(v.len(), 4);
    check(&v[0], "room_temperature_2", "Room 2 Temperature", Unit::C, DeviceClass::Temperature, "mdi:thermometer", "temperature");
    assert_eq!(float(&v[0].2), 20.5);
    check(&v[1], "room_setpoint_2", "Room 2 Setpoint", Unit::C, DeviceClass::Temperature, "mdi:thermometer-chevron-up", "setpoint");
    check(&v[2], "room_heating_on_2", "Room 2 Heating On", Unit::NoUnit, DeviceClass::NoClass, "mdi:radiator", "deviceOnOff");
    assert!(matches!(v[2].2, StatValue::Flag(true)));
    check(&v[3], "room_heating_power_2", "Room 2 Heating Power", Unit::NoUnit, DeviceClass::NoClass, "mdi:radiator", "power");

    let valve = Node::Valve { id: 3, data: ValveData { onoff: OnOff::Off, power: 1.0 } };
    let v = valve.stats(percent);
    check(&v[0], "valve_power_3", "Valve 3 Power", Unit::NoUnit, DeviceClass::NoClass, "mdi:valve", "power");
    check(&v[1], "valve_on_3", "Valve 3 On", Unit::NoUnit, DeviceClass::NoClass, "mdi:valve", "onoff");
    assert!(matches!(v[1].2, StatValue::Flag(false)));

    let act = Node::Actuator { id: 5, data: ActuatorData { position: 0.0, orientation: 1024.0, power: 7.0 } };
    let v = act.stats(percent);
    check(&v[0], "actuator_position_5", "Actuator 5 Position", Unit::Percent, DeviceClass::NoClass, "mdi:window-shutter", "position");
    assert_eq!(float(&v[0].2), 100.0);
    check(&v[1], "actuator_orientation_5", "Actuator 5 Orientation", Unit::Percent, DeviceClass::NoClass, "mdi:rotate-3d-variant", "orientation");
    assert_eq!(float(&v[1].2), 0.0);
    check(&v[2], "actuator_power_5", "Actuator 5 Power", Unit::NoUnit, DeviceClass::NoClass, "mdi:window-shutter", "power");
    assert_eq!(float(&v[2].2), 7.0);

    let fan = Node::Fan { id: 6, data: FanData { speed: "50%".to_string(), power: 12.0, mode: "auto".to_string() } };
    let v = fan.stats(percent);
    check(&v[0], "fan_speed_6", "Fan 6 Speed", Unit::NoUnit, DeviceClass::NoClass, "mdi:fan", "speed");
    assert!(matches!(&v[0].2, StatValue::Text(s) if s == "50%"));
    check(&v[1], "fan_mode_6", "Fan 6 Mode", Unit::NoUnit, DeviceClass::NoClass, "mdi:fan", "mode");
    check(&v[2], "fan_power_6", "Fan 6 Power", Unit::NoUnit, DeviceClass::NoClass, "mdi:fan", "power");

    assert!(Node::<f32>::Unknown.stats(percent).is_empty());
}

fn message(modbus: &str) -> ESmartMessage<f32> {
    ESmartMessage {
        headers: Headers {
            from: "master".to_string(),
            method: "INFO".to_string(),
            size: 10,
            timestamp: UtcTime { secs: 0, nanos: 0 },
            to: "x".to_string(),
            kind: "data".to_string(),
            version: "1.19.0".to_string(),
        },
        body: Body {
            holiday_mode: HolidayMode { onoff: OnOff::On },
            freecooling: Freecooling::default(),
            valves_state: "open".to_string(),
            modbus_on_error: modbus.to_string(),
            modbus_belimo_on_error: String::new(),
            modbus_ac_on_error: "E2".to_string(),
            meters: vec![Meter::Temperature { id: 1, temperature: 1.0 }],
            nodes: vec![Node::Unknown, Node::Unknown],
        },
    }
}

#[test]
fn body_stats_and_getters() {
    let m = message("");
    assert!(m.holiday_mode_on());
    assert!(!m.freecooling_on());
    assert_eq!(m.valves_state(), "open");
    assert_eq!(m.iter_meters().count(), 1);
    assert_eq!(m.iter_nodes().count(), 2);
    let v = m.body_stats();
    assert_eq!(v.len(), 6);
    check(&v[0], "holiday_mode", "Holiday Mode", Unit::NoUnit, DeviceClass::NoClass, "mdi:beach", "holiday_mode");
    assert!(matches!(v[0].2, StatValue::Flag(true)));
    check(&v[1], "freecooling", "Freecooling", Unit::NoUnit, DeviceClass::NoClass, "mdi:snowflake", "freecooling");
    assert!(matches!(v[1].2, StatValue::Flag(false)));
    check(&v[2], "valves_state", "Valves State", Unit::NoUnit, DeviceClass::NoClass, "mdi:valve", "valves_state");
    check(&v[3], "modbus_error", "Modbus Error", Unit::NoUnit, DeviceClass::NoClass, "mdi:alert-circle", "modbus_error");
    assert!(matches!(&v[3].2, StatValue::Text(s) if s == "OK"));
    check(&v[4], "modbus_belimo_error", "Modbus Belimo Error", Unit::NoUnit, DeviceClass::NoClass, "mdi:alert-circle", "modbus_belimo_error");
    assert!(matches!(&v[4].2, StatValue::Text(s) if s == "OK"));
    check(&v[5], "modbus_ac_error", "Modbus AC Error", Unit::NoUnit, DeviceClass::NoClass, "mdi:alert-circle", "modbus_ac_error");
    assert!(matches!(&v[5].2, StatValue::Text(s) if s == "E2"));
    let v = message("bus down").body_stats();
    assert!(matches!(&v[3].2, StatValue::Text(s) if s == "bus down"));
}

#[test]
fn info_messages_only() {
    assert!(!skip_message("{\"headers\":{\"method\":\"INFO\"},\"body\":{}}"));
    assert!(skip_message("{\"headers\":{\"method\":\"SET\"},\"body\":{}}"));
    assert!(skip_message("{\"body\":{}}"));
    assert!(skip_message("{\"headers\":{\"method\":1}}"));
    assert!(!skip_message("not json"));
}

#[test]
fn timestamps_in_each_format() {
    assert_eq!(parse_timestamp("2024-01-02 03:04:05+0000"), Some(UtcTime { secs: 1704164645, nanos: 0 }));
    assert_eq!(parse_timestamp("2024-01-02 04:04:05+0100"), Some(UtcTime { secs: 1704164645, nanos: 0 }));
    assert_eq!(parse_timestamp("2024-01-02 03:04:05"), Some(UtcTime { secs: 1704164645, nanos: 0 }));
    assert_eq!(parse_timestamp("2024-01-02T03:04:05+0000"), Some(UtcTime { secs: 1704164645, nanos: 0 }));
    assert_eq!(parse_timestamp("2024-01-02T03:04:05"), Some(UtcTime { secs: 1704164645, nanos: 0 }));
    assert_eq!(parse_timestamp("yesterday"), None);
}

#[test]
fn statistic_ids_are_distinct_across_nodes_meters_and_states() {
    let mut msg = message("");
    msg.body.nodes = vec![
        Node::Room { id: 1, data: RoomData { device_on_off: OnOff::On, power: 1.0, setpoint: 20.0, temperature: 19.0 } },
        Node::Room { id: 11, data: RoomData { device_on_off: OnOff::Off, power: 0.0, setpoint: 18.0, temperature: 17.0 } },
        Node::Valve { id: 1, data: ValveData { onoff: OnOff::On, power: 2.0 } },
        Node::Actuator { id: 1, data: ActuatorData { position: 512.0, orientation: 0.0, power: 3.0 } },
        Node::Fan { id: 1, data: FanData { speed: "20%".to_string(), power: 4.0, mode: "manual".to_string() } },
    ];
    msg.body.meters = vec![
        Meter::Flow { id: 1, name: "Water".to_string(), flow_rate: 1.0 },
        Meter::Power { id: 1, name: "Grid".to_string(), power: 2.0 },
        Meter::Temperature { id: 1, temperature: 3.0 },
    ];
    let mut ids: Vec<String> = Vec::new();
    for n in &msg.body.nodes {
        ids.extend(n.stats(percent).into_iter().map(|e| e.0));
    }
    for m in &msg.body.meters {
        ids.extend(m.into_stats_iter().into_iter().map(|e| e.0));
    }
    ids.extend(msg.body_stats().into_iter().map(|e| e.0));
    assert_eq!(ids.len(), 4 + 4 + 2 + 3 + 3 + 3 + 6);
    let mut sorted = ids.clone();
    sorted.sort();
    sorted.dedup();
    assert_eq!(sorted.len(), ids.len());
}
