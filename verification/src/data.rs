//! The data that the eSmart controller reports: meters, nodes and the switches of
//! the installation, and the statistics published for each.

use vstd::prelude::*;
use crate::stats::{
    entries_view, stat_view, DeviceClass, IterStats, Stat, StatEntry, StatValue, StatValueView,
    StatView, Unit,
};
use crate::text::{decimal, push_decimal};
use crate::time::UtcTime;

verus! {

/// A switch state as the controller reports it (`"on"` / `"off"`).
#[derive(Clone, Copy, Debug, PartialEq, Eq, Structural)]
pub enum OnOff {
    On,
    Off,
}

impl Default for OnOff {
    fn default() -> (r: Self)
        ensures
            r == OnOff::Off,
    {
        OnOff::Off
    }
}

impl<'a> From<&'a OnOff> for bool {
    fn from(value: &'a OnOff) -> (r: bool) {
        match value {
            OnOff::On => true,
            OnOff::Off => false,
        }
    }
}

impl<'a> vstd::std_specs::convert::FromSpecImpl<&'a OnOff> for bool {
    open spec fn obeys_from_spec() -> bool {
        true
    }

    open spec fn from_spec(v: &'a OnOff) -> bool {
        *v == OnOff::On
    }
}

/// A meter. `F` is the type of the readings.
#[derive(Clone, Debug)]
pub enum Meter<F> {
    Flow { id: u16, name: String, flow_rate: F },
    Power { id: u16, name: String, power: F },
    Temperature { id: u16, temperature: F },
}

impl<F: Copy> Meter<F> {
    /// The meter's reading.
    pub fn reading(&self) -> (r: F)
        ensures
            r == match *self {
                Meter::Flow { flow_rate, .. } => flow_rate,
                Meter::Power { power, .. } => power,
                Meter::Temperature { temperature, .. } => temperature,
            },
    {
        match self {
            Meter::Flow { flow_rate, .. } => *flow_rate,
            Meter::Power { power, .. } => *power,
            Meter::Temperature { temperature, .. } => *temperature,
        }
    }
}

/// `prefix` followed by the decimal `id`.
pub open spec fn with_id(prefix: Seq<char>, id: u16) -> Seq<char> {
    prefix + decimal(id as nat)
}

/// `prefix`, the decimal `id`, then `suffix`.
pub open spec fn around_id(prefix: Seq<char>, id: u16, suffix: Seq<char>) -> Seq<char> {
    prefix + decimal(id as nat) + suffix
}

/// The statistics published for a meter.
pub open spec fn meter_stats<F>(m: Meter<F>) -> Seq<(Seq<char>, StatView, StatValueView<F>)> {
    match m {
        Meter::Flow { id, name, flow_rate } => seq![
            (
                with_id("flow_"@, id),
                stat_view(name@, Unit::Lmin, DeviceClass::Water, "mdi:pipe"@, "flow_rate"@),
                StatValueView::Float(flow_rate),
            ),
        ],
        Meter::Power { id, name, power } => seq![
            (
                with_id("power_"@, id),
                stat_view(name@, Unit::W, DeviceClass::Power, "mdi:lightning-bolt"@, "power"@),
                StatValueView::Float(power),
            ),
        ],
        Meter::Temperature { id, temperature } => seq![
            (
                with_id("temperature_"@, id),
                stat_view(
                    "General Temperature"@,
                    Unit::C,
                    DeviceClass::Temperature,
                    "mdi:thermometer"@,
                    "temperature"@,
                ),
                StatValueView::Float(temperature),
            ),
        ],
    }
}

pub fn id_string(prefix: &str, id: u16) -> (r: String)
    ensures
        r@ == with_id(prefix@, id),
{
    let mut r = String::new();
    r.append(prefix);
    push_decimal(&mut r, id as u64);
    r
}

pub fn id_name(prefix: &str, id: u16, suffix: &str) -> (r: String)
    ensures
        r@ == around_id(prefix@, id, suffix@),
{
    let mut r = String::new();
    r.append(prefix);
    push_decimal(&mut r, id as u64);
    r.append(suffix);
    r
}

impl<'a, F: Copy> IterStats<Vec<StatEntry<F>>> for &'a Meter<F> {
    fn into_stats_iter(self) -> (r: Vec<StatEntry<F>>)
        ensures
            entries_view(r@) == meter_stats(*self),
    {
        let mut r: Vec<StatEntry<F>> = Vec::new();
        match self {
            Meter::Flow { id, name, flow_rate } => {
                r.push(
                    (
                        id_string("flow_", *id),
                        Stat::new(name.as_str(), Unit::Lmin, DeviceClass::Water, "mdi:pipe", "flow_rate"),
                        StatValue::Float(*flow_rate),
                    ),
                );
            },
            Meter::Power { id, name, power } => {
                r.push(
                    (
                        id_string("power_", *id),
                        Stat::new(
                            name.as_str(),
                            Unit::W,
                            DeviceClass::Power,
                            "mdi:lightning-bolt",
                            "power",
                        ),
                        StatValue::Float(*power),
                    ),
                );
            },
            Meter::Temperature { id, temperature } => {
                r.push(
                    (
                        id_string("temperature_", *id),
                        Stat::new(
                            "General Temperature",
                            Unit::C,
                            DeviceClass::Temperature,
                            "mdi:thermometer",
                            "temperature",
                        ),
                        StatValue::Float(*temperature),
                    ),
                );
            },
        }
        assert(entries_view(r@) =~= meter_stats(*self));
        r
    }
}


/// The readings of a valve.
#[derive(Clone, Debug)]
pub struct ValveData<F> {
    pub onoff: OnOff,
    pub power: F,
}

/// The readings of a room.
#[derive(Clone, Debug)]
pub struct RoomData<F> {
    pub device_on_off: OnOff,
    pub power: F,
    pub setpoint: F,
    pub temperature: F,
}

/// The readings of an actuator (a window shutter); the controller reports
/// position and orientation from 0 (fully open) to 1024 (fully closed).
#[derive(Clone, Debug)]
pub struct ActuatorData<F> {
    pub position: F,
    pub orientation: F,
    pub power: F,
}

/// The readings of a fan.
#[derive(Clone, Debug)]
pub struct FanData<F> {
    pub speed: String,
    pub power: F,
    pub mode: String,
}

/// A node of the installation.
#[allow(inconsistent_fields)]
#[derive(Clone, Debug)]
pub enum Node<F> {
    Room { id: u16, data: RoomData<F> },
    Valve { id: u16, data: ValveData<F> },
    Actuator { id: u16, data: ActuatorData<F> },
    Fan { id: u16, data: FanData<F> },
    /// A node of a kind the bridge does not know.
    Unknown,
}

/// The statistics published for a node; `position` and `orientation` are an
/// actuator's readings on Home Assistant's scale (0 closed, 100 open).
pub open spec fn node_stats<F>(n: Node<F>, position: F, orientation: F) -> Seq<
    (Seq<char>, StatView, StatValueView<F>),
> {
    match n {
        Node::Room { id, data } => seq![
            (
                with_id("room_temperature_"@, id),
                stat_view(
                    around_id("Room "@, id, " Temperature"@),
                    Unit::C,
                    DeviceClass::Temperature,
                    "mdi:thermometer"@,
                    "temperature"@,
                ),
                StatValueView::Float(data.temperature),
            ),
            (
                with_id("room_setpoint_"@, id),
                stat_view(
                    around_id("Room "@, id, " Setpoint"@),
                    Unit::C,
                    DeviceClass::Temperature,
                    "mdi:thermometer-chevron-up"@,
                    "setpoint"@,
                ),
                StatValueView::Float(data.setpoint),
            ),
            (
                with_id("room_heating_on_"@, id),
                stat_view(
                    around_id("Room "@, id, " Heating On"@),
                    Unit::NoUnit,
                    DeviceClass::NoClass,
                    "mdi:radiator"@,
                    "deviceOnOff"@,
                ),
                StatValueView::Flag(data.device_on_off == OnOff::On),
            ),
            (
                with_id("room_heating_power_"@, id),
                stat_view(
                    around_id("Room "@, id, " Heating Power"@),
                    Unit::NoUnit,
                    DeviceClass::NoClass,
                    "mdi:radiator"@,
                    "power"@,
                ),
                StatValueView::Float(data.power),
            ),
        ],
        Node::Valve { id, data } => seq![
            (
                with_id("valve_power_"@, id),
                stat_view(
                    around_id("Valve "@, id, " Power"@),
                    Unit::NoUnit,
                    DeviceClass::NoClass,
                    "mdi:valve"@,
                    "power"@,
                ),
                StatValueView::Float(data.power),
            ),
            (
                with_id("valve_on_"@, id),
                stat_view(
                    around_id("Valve "@, id, " On"@),
                    Unit::NoUnit,
                    DeviceClass::NoClass,
                    "mdi:valve"@,
                    "onoff"@,
                ),
                StatValueView::Flag(data.onoff == OnOff::On),
            ),
        ],
        Node::Actuator { id, data } => seq![
            (
                with_id("actuator_position_"@, id),
                stat_view(
                    around_id("Actuator "@, id, " Position"@),
                    Unit::Percent,
                    DeviceClass::NoClass,
                    "mdi:window-shutter"@,
                    "position"@,
                ),
                StatValueView::Float(position),
            ),
            (
                with_id("actuator_orientation_"@, id),
                stat_view(
                    around_id("Actuator "@, id, " Orientation"@),
                    Unit::Percent,
                    DeviceClass::NoClass,
                    "mdi:rotate-3d-variant"@,
                    "orientation"@,
                ),
                StatValueView::Float(orientation),
            ),
            (
                with_id("actuator_power_"@, id),
                stat_view(
                    around_id("Actuator "@, id, " Power"@),
                    Unit::NoUnit,
                    DeviceClass::NoClass,
                    "mdi:window-shutter"@,
                    "power"@,
                ),
                StatValueView::Float(data.power),
            ),
        ],
        Node::Fan { id, data } => seq![
            (
                with_id("fan_speed_"@, id),
                stat_view(
                    around_id("Fan "@, id, " Speed"@),
                    Unit::NoUnit,
                    DeviceClass::NoClass,
                    "mdi:fan"@,
                    "speed"@,
                ),
                StatValueView::Text(data.speed@),
            ),
            (
                with_id("fan_mode_"@, id),
                stat_view(
                    around_id("Fan "@, id, " Mode"@),
                    Unit::NoUnit,
                    DeviceClass::NoClass,
                    "mdi:fan"@,
                    "mode"@,
                ),
                StatValueView::Text(data.mode@),
            ),
            (
                with_id("fan_power_"@, id),
                stat_view(
                    around_id("Fan "@, id, " Power"@),
                    Unit::NoUnit,
                    DeviceClass::NoClass,
                    "mdi:fan"@,
                    "power"@,
                ),
                StatValueView::Float(data.power),
            ),
        ],
        Node::Unknown => Seq::empty(),
    }
}

fn entry<F>(
    id: String,
    name: String,
    unit: Unit,
    device_class: DeviceClass,
    icon: &str,
    property: &str,
    value: StatValue<F>,
) -> (r: StatEntry<F>)
    ensures
        r.0@ == id@,
        r.1@ == stat_view(name@, unit, device_class, icon@, property@),
        r.2@ == value@,
{
    (id, Stat::new(name.as_str(), unit, device_class, icon, property), value)
}

impl<F: Copy> Node<F> {
    /// The statistics published for this node. `to_percent` converts an
    /// actuator's position or orientation reading to Home Assistant's scale.
    pub fn stats(&self, to_percent: impl Fn(F) -> F) -> (r: Vec<StatEntry<F>>)
        requires
            forall|x: F| call_requires(to_percent, (x,)),
        ensures
            exists|position: F, orientation: F|
                {
                    &&& (*self matches Node::Actuator { data, .. } ==> call_ensures(
                        to_percent,
                        (data.position,),
                        position,
                    ) && call_ensures(to_percent, (data.orientation,), orientation))
                    &&& entries_view(r@) == #[trigger] node_stats(*self, position, orientation)
                },
    {
        let mut r: Vec<StatEntry<F>> = Vec::new();
        match self {
            Node::Room { id, data } => {
                let id = *id;
                r.push(
                    entry(
                        id_string("room_temperature_", id),
                        id_name("Room ", id, " Temperature"),
                        Unit::C,
                        DeviceClass::Temperature,
                        "mdi:thermometer",
                        "temperature",
                        StatValue::Float(data.temperature),
                    ),
                );
                r.push(
                    entry(
                        id_string("room_setpoint_", id),
                        id_name("Room ", id, " Setpoint"),
                        Unit::C,
                        DeviceClass::Temperature,
                        "mdi:thermometer-chevron-up",
                        "setpoint",
                        StatValue::Float(data.setpoint),
                    ),
                );
                r.push(
                    entry(
                        id_string("room_heating_on_", id),
                        id_name("Room ", id, " Heating On"),
                        Unit::NoUnit,
                        DeviceClass::NoClass,
                        "mdi:radiator",
                        "deviceOnOff",
                        StatValue::Flag(data.device_on_off == OnOff::On),
                    ),
                );
                r.push(
                    entry(
                        id_string("room_heating_power_", id),
                        id_name("Room ", id, " Heating Power"),
                        Unit::NoUnit,
                        DeviceClass::NoClass,
                        "mdi:radiator",
                        "power",
                        StatValue::Float(data.power),
                    ),
                );
                assert(entries_view(r@) =~= node_stats(*self, data.power, data.power));
            },
            Node::Valve { id, data } => {
                let id = *id;
                r.push(
                    entry(
                        id_string("valve_power_", id),
                        id_name("Valve ", id, " Power"),
                        Unit::NoUnit,
                        DeviceClass::NoClass,
                        "mdi:valve",
                        "power",
                        StatValue::Float(data.power),
                    ),
                );
                r.push(
                    entry(
                        id_string("valve_on_", id),
                        id_name("Valve ", id, " On"),
                        Unit::NoUnit,
                        DeviceClass::NoClass,
                        "mdi:valve",
                        "onoff",
                        StatValue::Flag(data.onoff == OnOff::On),
                    ),
                );
                assert(entries_view(r@) =~= node_stats(*self, data.power, data.power));
            },
            Node::Actuator { id, data } => {
                let id = *id;
                let position = to_percent(data.position);
                let orientation = to_percent(data.orientation);
                r.push(
                    entry(
                        id_string("actuator_position_", id),
                        id_name("Actuator ", id, " Position"),
                        Unit::Percent,
                        DeviceClass::NoClass,
                        "mdi:window-shutter",
                        "position",
                        StatValue::Float(position),
                    ),
                );
                r.push(
                    entry(
                        id_string("actuator_orientation_", id),
                        id_name("Actuator ", id, " Orientation"),
                        Unit::Percent,
                        DeviceClass::NoClass,
                        "mdi:rotate-3d-variant",
                        "orientation",
                        StatValue::Float(orientation),
                    ),
                );
                r.push(
                    entry(
                        id_string("actuator_power_", id),
                        id_name("Actuator ", id, " Power"),
                        Unit::NoUnit,
                        DeviceClass::NoClass,
                        "mdi:window-shutter",
                        "power",
                        StatValue::Float(data.power),
                    ),
                );
                assert(entries_view(r@) =~= node_stats(*self, position, orientation));
            },
            Node::Fan { id, data } => {
                let id = *id;
                r.push(
                    entry(
                        id_string("fan_speed_", id),
                        id_name("Fan ", id, " Speed"),
                        Unit::NoUnit,
                        DeviceClass::NoClass,
                        "mdi:fan",
                        "speed",
                        StatValue::Text(data.speed.clone()),
                    ),
                );
                r.push(
                    entry(
                        id_string("fan_mode_", id),
                        id_name("Fan ", id, " Mode"),
                        Unit::NoUnit,
                        DeviceClass::NoClass,
                        "mdi:fan",
                        "mode",
                        StatValue::Text(data.mode.clone()),
                    ),
                );
                r.push(
                    entry(
                        id_string("fan_power_", id),
                        id_name("Fan ", id, " Power"),
                        Unit::NoUnit,
                        DeviceClass::NoClass,
                        "mdi:fan",
                        "power",
                        StatValue::Float(data.power),
                    ),
                );
                assert(entries_view(r@) =~= node_stats(*self, data.power, data.power));
            },
            Node::Unknown => {
                proof {
                    let p: F = vstd::pervasive::arbitrary();
                    assert(entries_view(r@) =~= node_stats(*self, p, p));
                }
            },
        }
        r
    }
}


/// The holiday-mode switch.
#[derive(Clone, Copy, Debug)]
pub struct HolidayMode {
    pub onoff: OnOff,
}

impl Default for HolidayMode {
    fn default() -> (r: Self)
        ensures
            r.onoff == OnOff::Off,
    {
        HolidayMode { onoff: OnOff::Off }
    }
}

/// The freecooling switch.
#[derive(Clone, Copy, Debug)]
pub struct Freecooling {
    pub onoff: OnOff,
}

impl Default for Freecooling {
    fn default() -> (r: Self)
        ensures
            r.onoff == OnOff::Off,
    {
        Freecooling { onoff: OnOff::Off }
    }
}

/// The body of a data message from the controller.
#[derive(Clone, Debug)]
pub struct Body<F> {
    pub holiday_mode: HolidayMode,
    pub freecooling: Freecooling,
    pub valves_state: String,
    pub modbus_on_error: String,
    pub modbus_belimo_on_error: String,
    pub modbus_ac_on_error: String,
    pub meters: Vec<Meter<F>>,
    pub nodes: Vec<Node<F>>,
}

/// The headers of a message from the controller.
#[derive(Clone, Debug)]
pub struct Headers {
    pub from: String,
    pub method: String,
    pub size: usize,
    pub timestamp: UtcTime,
    pub to: String,
    pub kind: String,
    pub version: String,
}

/// A data message from the controller.
#[derive(Clone, Debug)]
pub struct ESmartMessage<F> {
    pub headers: Headers,
    pub body: Body<F>,
}

/// What an error field is published as: `OK` when it is empty.
pub open spec fn error_text(s: Seq<char>) -> Seq<char> {
    if s.len() == 0 {
        "OK"@
    } else {
        s
    }
}

/// The statistics published for the switches and states of the installation.
pub open spec fn body_stats<F>(b: Body<F>) -> Seq<(Seq<char>, StatView, StatValueView<F>)> {
    seq![
        (
            "holiday_mode"@,
            stat_view(
                "Holiday Mode"@,
                Unit::NoUnit,
                DeviceClass::NoClass,
                "mdi:beach"@,
                "holiday_mode"@,
            ),
            StatValueView::Flag(b.holiday_mode.onoff == OnOff::On),
        ),
        (
            "freecooling"@,
            stat_view(
                "Freecooling"@,
                Unit::NoUnit,
                DeviceClass::NoClass,
                "mdi:snowflake"@,
                "freecooling"@,
            ),
            StatValueView::Flag(b.freecooling.onoff == OnOff::On),
        ),
        (
            "valves_state"@,
            stat_view(
                "Valves State"@,
                Unit::NoUnit,
                DeviceClass::NoClass,
                "mdi:valve"@,
                "valves_state"@,
            ),
            StatValueView::Text(b.valves_state@),
        ),
        (
            "modbus_error"@,
            stat_view(
                "Modbus Error"@,
                Unit::NoUnit,
                DeviceClass::NoClass,
                "mdi:alert-circle"@,
                "modbus_error"@,
            ),
            StatValueView::Text(error_text(b.modbus_on_error@)),
        ),
        (
            "modbus_belimo_error"@,
            stat_view(
                "Modbus Belimo Error"@,
                Unit::NoUnit,
                DeviceClass::NoClass,
                "mdi:alert-circle"@,
                "modbus_belimo_error"@,
            ),
            StatValueView::Text(error_text(b.modbus_belimo_on_error@)),
        ),
        (
            "modbus_ac_error"@,
            stat_view(
                "Modbus AC Error"@,
                Unit::NoUnit,
                DeviceClass::NoClass,
                "mdi:alert-circle"@,
                "modbus_ac_error"@,
            ),
            StatValueView::Text(error_text(b.modbus_ac_on_error@)),
        ),
    ]
}

fn error_value(s: &str) -> (r: String)
    ensures
        r@ == error_text(s@),
{
    if s.is_empty() {
        "OK".to_owned()
    } else {
        s.to_owned()
    }
}

fn fixed_entry<F>(
    id: &str,
    name: &str,
    icon: &str,
    property: &str,
    value: StatValue<F>,
) -> (r: StatEntry<F>)
    ensures
        r.0@ == id@,
        r.1@ == stat_view(name@, Unit::NoUnit, DeviceClass::NoClass, icon@, property@),
        r.2@ == value@,
{
    (id.to_owned(), Stat::new(name, Unit::NoUnit, DeviceClass::NoClass, icon, property), value)
}

impl<F> ESmartMessage<F> {
    pub fn iter_meters(&self) -> (r: std::slice::Iter<'_, Meter<F>>)
        ensures
            vstd::std_specs::iter::IteratorSpec::remaining(&r) == self.body.meters@.as_ref(),
    {
        self.body.meters.iter()
    }

    pub fn iter_nodes(&self) -> (r: std::slice::Iter<'_, Node<F>>)
        ensures
            vstd::std_specs::iter::IteratorSpec::remaining(&r) == self.body.nodes@.as_ref(),
    {
        self.body.nodes.iter()
    }

    pub fn holiday_mode_on(&self) -> (r: bool)
        ensures
            r == (self.body.holiday_mode.onoff == OnOff::On),
    {
        bool::from(&self.body.holiday_mode.onoff)
    }

    pub fn freecooling_on(&self) -> (r: bool)
        ensures
            r == (self.body.freecooling.onoff == OnOff::On),
    {
        bool::from(&self.body.freecooling.onoff)
    }

    pub fn valves_state(&self) -> (r: &str)
        ensures
            r@ == self.body.valves_state@,
    {
        self.body.valves_state.as_str()
    }

    pub fn modbus_on_error(&self) -> (r: &str)
        ensures
            r@ == self.body.modbus_on_error@,
    {
        self.body.modbus_on_error.as_str()
    }

    pub fn modbus_belimo_on_error(&self) -> (r: &str)
        ensures
            r@ == self.body.modbus_belimo_on_error@,
    {
        self.body.modbus_belimo_on_error.as_str()
    }

    pub fn modbus_ac_on_error(&self) -> (r: &str)
        ensures
            r@ == self.body.modbus_ac_on_error@,
    {
        self.body.modbus_ac_on_error.as_str()
    }

    /// The statistics published for the switches and states of the installation.
    pub fn body_stats(&self) -> (r: Vec<StatEntry<F>>)
        ensures
            entries_view(r@) == body_stats(self.body),
    {
        let mut r: Vec<StatEntry<F>> = Vec::new();
        r.push(
            fixed_entry(
                "holiday_mode",
                "Holiday Mode",
                "mdi:beach",
                "holiday_mode",
                StatValue::Flag(self.holiday_mode_on()),
            ),
        );
        r.push(
            fixed_entry(
                "freecooling",
                "Freecooling",
                "mdi:snowflake",
                "freecooling",
                StatValue::Flag(self.freecooling_on()),
            ),
        );
        r.push(
            fixed_entry(
                "valves_state",
                "Valves State",
                "mdi:valve",
                "valves_state",
                StatValue::Text(self.valves_state().to_owned()),
            ),
        );
        r.push(
            fixed_entry(
                "modbus_error",
                "Modbus Error",
                "mdi:alert-circle",
                "modbus_error",
                StatValue::Text(error_value(self.modbus_on_error())),
            ),
        );
        r.push(
            fixed_entry(
                "modbus_belimo_error",
                "Modbus Belimo Error",
                "mdi:alert-circle",
                "modbus_belimo_error",
                StatValue::Text(error_value(self.modbus_belimo_on_error())),
            ),
        );
        r.push(
            fixed_entry(
                "modbus_ac_error",
                "Modbus AC Error",
                "mdi:alert-circle",
                "modbus_ac_error",
                StatValue::Text(error_value(self.modbus_ac_on_error())),
            ),
        );
        assert(entries_view(r@) =~= body_stats(self.body));
        r
    }
}


/// What the method header of a message body is: `None` when the body is not JSON;
/// otherwise the string at `/headers/method`, if there is one.
pub uninterp spec fn envelope_method(body: Seq<char>) -> Option<Option<Seq<char>>>;

/// `serde_json::from_str::<Value>` on `body`, then `pointer("/headers/method")` as a
/// string. Its result is named `envelope_method`.
#[verifier::external_body]
fn read_envelope_method(body: &str) -> (r: Option<Option<String>>)
    ensures
        match r {
            None => envelope_method(body@) is None,
            Some(None) => envelope_method(body@) == Some(None::<Seq<char>>),
            Some(Some(m)) => envelope_method(body@) == Some(Some(m@)),
        },
{
    match serde_json::from_str::<serde_json::Value>(body) {
        Ok(v) => match v.pointer("/headers/method") {
            Some(serde_json::Value::String(m)) => Some(Some(m.clone())),
            _ => Some(None),
        },
        Err(_) => None,
    }
}

/// A message body is skipped when it is JSON whose method is not `INFO` (such as
/// the echo of a SET command); only INFO messages carry the data. A body that is
/// not JSON is not skipped here (its parse fails later).
pub open spec fn skips_message(body: Seq<char>) -> bool {
    envelope_method(body) matches Some(m) && m != Some("INFO"@)
}

/// Whether the message body `body` is to be skipped.
pub fn skip_message(body: &str) -> (r: bool)
    ensures
        r == skips_message(body@),
{
    match read_envelope_method(body) {
        None => false,
        Some(None) => true,
        Some(Some(m)) => {
            let info = "INFO".to_owned();
            !(m == info)
        },
    }
}

} // verus!
