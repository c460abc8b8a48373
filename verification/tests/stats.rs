use esmart_mqtt::stats::{DeviceClass, Stat, Unit};

#[test]
fn stat_getters() {
    let s = Stat::new("Room 1 Temperature", Unit::C, DeviceClass::Temperature, "mdi:thermometer", "temperature");
    assert_eq!(s.name(), "Room 1 Temperature");
    assert_eq!(s.icon(), "mdi:thermometer");
    assert_eq!(s.property(), "temperature");
    assert_eq!(s.unit_str(), Some("°C"));
    assert_eq!(s.device_class_str(), Some("temperature"));
    assert_eq!(s.unit(), Unit::C);
    assert_eq!(s.device_class(), DeviceClass::Temperature);
}

#[test]
fn unit_and_class_names() {
    let mk = |u, d| Stat::new("n", u, d, "i", "p");
    assert_eq!(mk(Unit::NoUnit, DeviceClass::NoClass).unit_str(), None);
    assert_eq!(mk(Unit::NoUnit, DeviceClass::NoClass).device_class_str(), None);
    assert_eq!(mk(Unit::Lmin, DeviceClass::Water).unit_str(), Some("L/min"));
    assert_eq!(mk(Unit::Lmin, DeviceClass::Water).device_class_str(), Some("water"));
    assert_eq!(mk(Unit::W, DeviceClass::Power).unit_str(), Some("W"));
    assert_eq!(mk(Unit::W, DeviceClass::Power).device_class_str(), Some("power"));
    assert_eq!(mk(Unit::Percent, DeviceClass::NoClass).unit_str(), Some("%"));
}
