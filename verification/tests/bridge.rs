use esmart_mqtt::bridge::{
    control_discovery, control_entity, mqtt_credentials, Bridge, ControlEntity, Credentials,
    Resolution,
};
use esmart_mqtt::discovery::{climate_discovery, switch_discovery};
use esmart_mqtt::stats::StatValue;
use esmart_mqtt::time::UtcTime;

fn at(secs: i64) -> UtcTime {
    UtcTime { secs, nanos: 0 }
}

#[test]
fn control_entities_of_statistics() {
    assert_eq!(control_entity("room_temperature_3"), Some(ControlEntity::Climate(3)));
    assert_eq!(control_entity("actuator_position_4"), Some(ControlEntity::Cover(4)));
    assert_eq!(control_entity("fan_power_5"), Some(ControlEntity::Fan(5)));
    assert_eq!(control_entity("holiday_mode"), Some(ControlEntity::HolidayModeSwitch));
    assert_eq!(control_entity("freecooling"), Some(ControlEntity::FreecoolingSwitch));
    assert_eq!(control_entity("room_setpoint_3"), None);
    assert_eq!(control_entity("room_temperature_x"), None);
    assert_eq!(control_discovery(ControlEntity::Climate(3)).payload, climate_discovery(3).payload);
    assert_eq!(
        control_discovery(ControlEntity::FreecoolingSwitch).payload,
        switch_discovery("freecooling", "Freecooling", "mdi:snowflake", "freecooling").payload
    );
}

#[test]
fn first_value_is_announced_and_published() {
    let mut b: Bridge<f32> = Bridge::new(300);
    let a = b.handle("room_temperature_3", StatValue::Float(20.0), at(1000));
    assert_eq!(a.control, Some(ControlEntity::Climate(3)));
    assert!(a.sensor_discovery);
    assert!(matches!(a.update, Some(Resolution::Mean(ref v)) if v.len() == 1));
}

#[test]
fn throttled_values_are_gathered() {
    let mut b: Bridge<f32> = Bridge::new(300);
    b.handle("power_1", StatValue::Float(1.0), at(1000));
    let a = b.handle("power_1", StatValue::Float(2.0), at(1100));
    assert!(a.control.is_none());
    assert!(!a.sensor_discovery);
    assert!(a.update.is_none());
    let a = b.handle("power_1", StatValue::Float(4.0), at(1300));
    assert!(a.update.is_none());
    let a = b.handle("power_1", StatValue::Float(6.0), at(1301));
    match a.update {
        Some(Resolution::Mean(v)) => {
            let xs: Vec<f32> = v.iter().map(|x| match x { StatValue::Float(f) => *f, _ => -1.0 }).collect();
            assert_eq!(xs, vec![2.0, 4.0, 6.0]);
        }
        _ => panic!("expected a publication"),
    }
    // the queue was drained: the next value within the throttle is kept again
    assert!(b.handle("power_1", StatValue::Float(8.0), at(1400)).update.is_none());
}

#[test]
fn text_values_publish_the_last() {
    let mut b: Bridge<f32> = Bridge::new(10);
    b.handle("fan_mode_1", StatValue::Text("auto".to_string()), at(0));
    b.handle("fan_mode_1", StatValue::Text("manual".to_string()), at(5));
    let a = b.handle("fan_mode_1", StatValue::Text("auto".to_string()), at(11));
    assert!(matches!(a.update, Some(Resolution::Last(StatValue::Text(ref s))) if s == "auto"));
}

#[test]
fn statistics_are_throttled_separately() {
    let mut b: Bridge<f32> = Bridge::new(300);
    b.handle("a", StatValue::Float(1.0), at(0));
    let a = b.handle("b", StatValue::Float(1.0), at(1));
    assert!(a.sensor_discovery && a.update.is_some());
    assert!(b.deadline_in_range("a"));
    assert_eq!(b.throttle_secs(), 300);
}

#[test]
fn deadline_range() {
    let mut b: Bridge<f32> = Bridge::new(9_000_000_000_000);
    b.handle("a", StatValue::Float(1.0), at(0));
    assert!(!b.deadline_in_range("a"));
    assert!(b.deadline_in_range("unseen"));
}

#[test]
fn credentials() {
    assert!(matches!(mqtt_credentials(&None, &Some("p".to_string())), Some(Credentials::Anonymous)));
    assert!(matches!(
        mqtt_credentials(&Some("u".to_string()), &Some("p".to_string())),
        Some(Credentials::Login { ref username, ref password }) if username == "u" && password == "p"
    ));
    assert!(mqtt_credentials(&Some("u".to_string()), &None).is_none());
}

#[test]
fn publications_of_a_statistic_are_more_than_the_throttle_apart() {
    let mut b: Bridge<f32> = Bridge::new(60);
    let times = [0i64, 10, 30, 60, 61, 70, 90, 121, 122, 200];
    let mut last: Option<i64> = None;
    let mut pending: Vec<f32> = Vec::new();
    for (k, t) in times.iter().enumerate() {
        let x = k as f32;
        // another statistic in between changes nothing for this one
        b.handle("power_9", StatValue::Float(0.0), at(*t));
        let a = b.handle("flow_2", StatValue::Float(x), at(*t));
        pending.push(x);
        match a.update {
            Some(Resolution::Mean(v)) => {
                if let Some(l) = last {
                    assert!(*t > l + 60, "published at {} after {}", t, l);
                }
                let xs: Vec<f32> = v.iter().map(|y| match y { StatValue::Float(f) => *f, _ => -1.0 }).collect();
                assert_eq!(xs, pending);
                pending.clear();
                last = Some(*t);
            }
            Some(_) => panic!("expected a mean"),
            None => assert!(*t <= last.unwrap() + 60),
        }
    }
    assert_eq!(last, Some(200));
}
