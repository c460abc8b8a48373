//! Sensor statistics: what is published for each reading and how Home Assistant
//! describes it.

use vstd::prelude::*;

verus! {

/// The unit of measurement of a statistic.
#[derive(Clone, Copy, Debug, PartialEq, Eq, Structural)]
pub enum Unit {
    /// No unit (`Unit::NoUnit` would clash with `Option::None`).
    NoUnit,
    C,
    Lmin,
    W,
    Percent,
}

/// The Home Assistant device class of a statistic.
#[derive(Clone, Copy, Debug, PartialEq, Eq, Structural)]
pub enum DeviceClass {
    /// No device class.
    NoClass,
    Water,
    Power,
    Temperature,
}

/// A statistic: its display name, unit, device class, icon, and the property
/// under which its value is published.
#[derive(Clone, Debug)]
pub struct Stat {
    name: String,
    unit: Unit,
    device_class: DeviceClass,
    icon: String,
    property: String,
}

/// What a [`Stat`] holds.
pub struct StatView {
    pub name: Seq<char>,
    pub unit: Unit,
    pub device_class: DeviceClass,
    pub icon: Seq<char>,
    pub property: Seq<char>,
}

impl View for Stat {
    type V = StatView;

    closed spec fn view(&self) -> StatView {
        StatView {
            name: self.name@,
            unit: self.unit,
            device_class: self.device_class,
            icon: self.icon@,
            property: self.property@,
        }
    }
}

/// The statistic with these fields.
pub open spec fn stat_view(
    name: Seq<char>,
    unit: Unit,
    device_class: DeviceClass,
    icon: Seq<char>,
    property: Seq<char>,
) -> StatView {
    StatView { name, unit, device_class, icon, property }
}

/// The Home Assistant name of a device class (none for [`DeviceClass::NoClass`]).
pub open spec fn device_class_name(d: DeviceClass) -> Option<Seq<char>> {
    match d {
        DeviceClass::NoClass => None,
        DeviceClass::Water => Some("water"@),
        DeviceClass::Power => Some("power"@),
        DeviceClass::Temperature => Some("temperature"@),
    }
}

/// The symbol of a unit (none for [`Unit::NoUnit`]).
pub open spec fn unit_symbol(u: Unit) -> Option<Seq<char>> {
    match u {
        Unit::NoUnit => None,
        Unit::C => Some("°C"@),
        Unit::Lmin => Some("L/min"@),
        Unit::W => Some("W"@),
        Unit::Percent => Some("%"@),
    }
}

impl Stat {
    pub fn new(name: &str, unit: Unit, device_class: DeviceClass, icon: &str, property: &str) -> (r:
        Self)
        ensures
            r@ == stat_view(name@, unit, device_class, icon@, property@),
    {
        Stat {
            name: name.to_owned(),
            unit,
            device_class,
            icon: icon.to_owned(),
            property: property.to_owned(),
        }
    }

    pub fn name(&self) -> (r: &str)
        ensures
            r@ == self@.name,
    {
        self.name.as_str()
    }

    pub fn icon(&self) -> (r: &str)
        ensures
            r@ == self@.icon,
    {
        self.icon.as_str()
    }

    pub fn property(&self) -> (r: &str)
        ensures
            r@ == self@.property,
    {
        self.property.as_str()
    }

    pub fn unit(&self) -> (r: Unit)
        ensures
            r == self@.unit,
    {
        self.unit
    }

    pub fn device_class(&self) -> (r: DeviceClass)
        ensures
            r == self@.device_class,
    {
        self.device_class
    }

    pub fn device_class_str(&self) -> (r: Option<&str>)
        ensures
            match r {
                Some(s) => device_class_name(self@.device_class) == Some(s@),
                None => device_class_name(self@.device_class) is None,
            },
    {
        match self.device_class {
            DeviceClass::NoClass => None,
            DeviceClass::Water => Some("water"),
            DeviceClass::Power => Some("power"),
            DeviceClass::Temperature => Some("temperature"),
        }
    }

    pub fn unit_str(&self) -> (r: Option<&str>)
        ensures
            match r {
                Some(s) => unit_symbol(self@.unit) == Some(s@),
                None => unit_symbol(self@.unit) is None,
            },
    {
        match self.unit {
            Unit::NoUnit => None,
            Unit::C => Some("°C"),
            Unit::Lmin => Some("L/min"),
            Unit::W => Some("W"),
            Unit::Percent => Some("%"),
        }
    }
}

/// The value of a statistic. `F` is the type of the numeric readings, which the
/// library carries without computing on them.
#[derive(Clone, Debug)]
pub enum StatValue<F> {
    /// A numeric reading.
    Float(F),
    /// A switch state, published as 1 (on) or 0 (off).
    Flag(bool),
    /// A text.
    Text(String),
}

/// What a [`StatValue`] holds.
pub enum StatValueView<F> {
    Float(F),
    Flag(bool),
    Text(Seq<char>),
}

impl<F> View for StatValue<F> {
    type V = StatValueView<F>;

    open spec fn view(&self) -> StatValueView<F> {
        match self {
            StatValue::Float(x) => StatValueView::Float(*x),
            StatValue::Flag(b) => StatValueView::Flag(*b),
            StatValue::Text(s) => StatValueView::Text(s@),
        }
    }
}

/// A statistic to publish: its id (which names its MQTT topic), the statistic and
/// its value.
pub type StatEntry<F> = (String, Stat, StatValue<F>);

/// What a list of [`StatEntry`] holds.
pub open spec fn entries_view<F>(v: Seq<StatEntry<F>>) -> Seq<(Seq<char>, StatView, StatValueView<F>)> {
    v.map_values(|e: StatEntry<F>| (e.0@, e.1@, e.2@))
}

/// Things that yield the statistics they carry.
pub trait IterStats<I: IntoIterator> {
    fn into_stats_iter(self) -> I;
}

} // verus!
