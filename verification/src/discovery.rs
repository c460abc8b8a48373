//! What is published to MQTT: Home Assistant discovery configurations (sensors,
//! climates, covers, fans, switches) and state updates, as topics and JSON text.

use vstd::prelude::*;
use crate::data::{around_id, id_name, id_string, with_id};
use crate::json::{json_quote, json_quoted, push_json_string};
use crate::stats::{device_class_name, unit_symbol, Stat, StatView};

verus! {

/// An MQTT message to publish (at least once).
#[derive(Clone, Debug)]
pub struct Publication {
    pub topic: String,
    pub payload: String,
    pub retain: bool,
}

/// The discovery device object: `{"identifiers":[<unique id>],"model":"eSmarter Client","name":<name>}`.
pub open spec fn device_json(unique_id: Seq<char>, name: Seq<char>) -> Seq<char> {
    "{\"identifiers\":["@ + json_quoted(unique_id) + "],\"model\":\"eSmarter Client\",\"name\":"@
        + json_quoted(name) + "}"@
}

fn push_device(out: &mut String, unique_id: &str, name: &str)
    ensures
        final(out)@ == old(out)@ + device_json(unique_id@, name@),
{
    out.append("{\"identifiers\":[");
    push_json_string(out, unique_id);
    out.append("],\"model\":\"eSmarter Client\",\"name\":");
    push_json_string(out, name);
    out.append("}");
}

/// The topic on which the state of statistic `id` is published.
pub open spec fn state_topic(id: Seq<char>) -> Seq<char> {
    "esmart/"@ + id + "/state"@
}

/// The name under which a statistic is announced: `<name> (<property>)`.
pub open spec fn sensor_name(stat: StatView) -> Seq<char> {
    stat.name + " ("@ + stat.property + ")"@
}

/// An optional member: `,"<key>":<value>` when there is a value.
pub open spec fn optional_member(key: Seq<char>, value: Option<Seq<char>>) -> Seq<char> {
    match value {
        Some(v) => ","@ + json_quoted(key) + ":"@ + json_quoted(v),
        None => Seq::empty(),
    }
}

/// The discovery configuration of the sensor for statistic `id`.
pub open spec fn sensor_config(id: Seq<char>, stat: StatView) -> Seq<char> {
    let name = sensor_name(stat);
    let unique = "esmart_"@ + id;
    "{\"device\":"@ + device_json(unique, name) + optional_member(
        "device_class"@,
        device_class_name(stat.device_class),
    ) + ",\"icon\":"@ + json_quoted(stat.icon) + ",\"name\":"@ + json_quoted(name)
        + ",\"state_topic\":"@ + json_quoted(state_topic(id)) + ",\"unique_id\":"@ + json_quoted(
        unique,
    ) + optional_member("unit_of_measurement"@, unit_symbol(stat.unit)) + ",\"value_template\":"@
        + json_quoted("{{ value_json."@ + stat.property + " }}"@) + "}"@
}

/// The retained discovery message of the sensor for statistic `id`.
pub open spec fn sensor_discovery_spec(id: Seq<char>, stat: StatView) -> (Seq<char>, Seq<char>) {
    ("homeassistant/sensor/esmart/"@ + id + "/config"@, sensor_config(id, stat))
}

fn push_optional_member(out: &mut String, key: &str, value: Option<&str>)
    ensures
        final(out)@ == old(out)@ + optional_member(
            key@,
            match value {
                Some(v) => Some(v@),
                None => None,
            },
        ),
{
    match value {
        Some(v) => {
            out.append(",");
            push_json_string(out, key);
            out.append(":");
            push_json_string(out, v);
        },
        None => {
            assert(final(out)@ =~= old(out)@ + Seq::<char>::empty());
        },
    }
}

/// The discovery message that announces the sensor for statistic `id`.
pub fn sensor_discovery(id: &str, stat: &Stat) -> (r: Publication)
    ensures
        (r.topic@, r.payload@) == sensor_discovery_spec(id@, stat@),
        r.retain,
{
    let mut topic = String::new();
    topic.append("homeassistant/sensor/esmart/");
    topic.append(id);
    topic.append("/config");
    let mut name = String::new();
    name.append(stat.name());
    name.append(" (");
    name.append(stat.property());
    name.append(")");
    let mut unique = String::new();
    unique.append("esmart_");
    unique.append(id);
    let mut st = String::new();
    st.append("esmart/");
    st.append(id);
    st.append("/state");
    let mut template = String::new();
    template.append("{{ value_json.");
    template.append(stat.property());
    template.append(" }}");
    let mut p = String::new();
    p.append("{\"device\":");
    push_device(&mut p, unique.as_str(), name.as_str());
    push_optional_member(&mut p, "device_class", stat.device_class_str());
    p.append(",\"icon\":");
    push_json_string(&mut p, stat.icon());
    p.append(",\"name\":");
    push_json_string(&mut p, name.as_str());
    p.append(",\"state_topic\":");
    push_json_string(&mut p, st.as_str());
    p.append(",\"unique_id\":");
    push_json_string(&mut p, unique.as_str());
    push_optional_member(&mut p, "unit_of_measurement", stat.unit_str());
    p.append(",\"value_template\":");
    push_json_string(&mut p, template.as_str());
    p.append("}");
    Publication { topic, payload: p, retain: true }
}

/// A state update `{"<property>":<value>}`, where `value` is JSON text.
pub open spec fn state_update_spec(id: Seq<char>, property: Seq<char>, value: Seq<char>) -> (
    Seq<char>,
    Seq<char>,
) {
    (state_topic(id), "{"@ + json_quoted(property) + ":"@ + value + "}"@)
}

/// The message that publishes the state of statistic `id`: its `property` with the
/// JSON text `value_json`. Not retained.
pub fn state_update(id: &str, property: &str, value_json: &str) -> (r: Publication)
    ensures
        (r.topic@, r.payload@) == state_update_spec(id@, property@, value_json@),
        !r.retain,
{
    let mut topic = String::new();
    topic.append("esmart/");
    topic.append(id);
    topic.append("/state");
    let mut p = String::new();
    p.append("{");
    push_json_string(&mut p, property);
    p.append(":");
    p.append(value_json);
    p.append("}");
    Publication { topic, payload: p, retain: false }
}

/// The discovery configuration of the cover for actuator `id`; position and tilt
/// are read as published, on the 0 (closed) to 100 (open) scale.
pub open spec fn cover_config(id: u16) -> Seq<char> {
    "{\"device\":"@ + device_json(with_id("esmart_actuator_"@, id), with_id("eSmart Actuator "@, id))
        + ",\"icon\":\"mdi:window-shutter\",\"name\":"@ + json_quoted(with_id("Actuator "@, id))
        + ",\"position_closed\":0,\"position_open\":100,\"position_template\":\"{{ value_json.position | round(0) | int }}\",\"position_topic\":"@
        + json_quoted(around_id("esmart/actuator_position_"@, id, "/state"@))
        + ",\"set_position_topic\":"@ + json_quoted(around_id("esmart/actuator_"@, id, "_position/set"@))
        + ",\"tilt_command_topic\":"@ + json_quoted(around_id("esmart/actuator_"@, id, "_tilt/set"@))
        + ",\"tilt_status_template\":\"{{ value_json.orientation | round(0) | int }}\",\"tilt_status_topic\":"@
        + json_quoted(around_id("esmart/actuator_orientation_"@, id, "/state"@))
        + ",\"unique_id\":"@ + json_quoted(with_id("esmart_actuator_"@, id)) + "}"@
}

/// The retained discovery message of the cover for actuator `id`.
pub open spec fn cover_discovery_spec(id: u16) -> (Seq<char>, Seq<char>) {
    (around_id("homeassistant/cover/esmart/actuator_"@, id, "/config"@), cover_config(id))
}

pub fn cover_discovery(node_id: u16) -> (r: Publication)
    ensures
        (r.topic@, r.payload@) == cover_discovery_spec(node_id),
        r.retain,
{
    let topic = id_name("homeassistant/cover/esmart/actuator_", node_id, "/config");
    let unique = id_string("esmart_actuator_", node_id);
    let mut p = String::new();
    p.append("{\"device\":");
    push_device(&mut p, unique.as_str(), id_string("eSmart Actuator ", node_id).as_str());
    p.append(",\"icon\":\"mdi:window-shutter\",\"name\":");
    push_json_string(&mut p, id_string("Actuator ", node_id).as_str());
    p.append(
        ",\"position_closed\":0,\"position_open\":100,\"position_template\":\"{{ value_json.position | round(0) | int }}\",\"position_topic\":",
    );
    push_json_string(&mut p, id_name("esmart/actuator_position_", node_id, "/state").as_str());
    p.append(",\"set_position_topic\":");
    push_json_string(&mut p, id_name("esmart/actuator_", node_id, "_position/set").as_str());
    p.append(",\"tilt_command_topic\":");
    push_json_string(&mut p, id_name("esmart/actuator_", node_id, "_tilt/set").as_str());
    p.append(
        ",\"tilt_status_template\":\"{{ value_json.orientation | round(0) | int }}\",\"tilt_status_topic\":",
    );
    push_json_string(&mut p, id_name("esmart/actuator_orientation_", node_id, "/state").as_str());
    p.append(",\"unique_id\":");
    push_json_string(&mut p, unique.as_str());
    p.append("}");
    Publication { topic, payload: p, retain: true }
}


/// The discovery configuration of the climate entity for room `id`.
pub open spec fn climate_config(id: u16) -> Seq<char> {
    "{\"current_temperature_template\":\"{{ value_json.temperature }}\",\"current_temperature_topic\":"@
        + json_quoted(around_id("esmart/room_temperature_"@, id, "/state"@)) + ",\"device\":"@
        + device_json(with_id("esmart_room_"@, id), with_id("eSmart Room "@, id))
        + ",\"icon\":\"mdi:radiator\",\"max_temp\":30,\"min_temp\":5,\"mode_command_topic\":"@
        + json_quoted(around_id("esmart/room_"@, id, "_mode/set"@))
        + ",\"mode_state_template\":\"{% if value_json.deviceOnOff == 1.0 %}heat{% else %}off{% endif %}\",\"mode_state_topic\":"@
        + json_quoted(around_id("esmart/room_heating_on_"@, id, "/state"@))
        + ",\"modes\":[\"off\",\"heat\"],\"name\":"@ + json_quoted(with_id("Room "@, id))
        + ",\"temp_step\":0.5,\"temperature_command_topic\":"@ + json_quoted(
        around_id("esmart/room_"@, id, "_setpoint/set"@),
    ) + ",\"temperature_state_template\":\"{{ value_json.setpoint }}\",\"temperature_state_topic\":"@
        + json_quoted(around_id("esmart/room_setpoint_"@, id, "/state"@))
        + ",\"temperature_unit\":\"C\",\"unique_id\":"@ + json_quoted(with_id("esmart_climate_"@, id))
        + "}"@
}

/// The retained discovery message of the climate entity for room `id`.
pub open spec fn climate_discovery_spec(id: u16) -> (Seq<char>, Seq<char>) {
    (around_id("homeassistant/climate/esmart/room_"@, id, "/config"@), climate_config(id))
}

pub fn climate_discovery(node_id: u16) -> (r: Publication)
    ensures
        (r.topic@, r.payload@) == climate_discovery_spec(node_id),
        r.retain,
{
    let topic = id_name("homeassistant/climate/esmart/room_", node_id, "/config");
    let mut p = String::new();
    p.append(
        "{\"current_temperature_template\":\"{{ value_json.temperature }}\",\"current_temperature_topic\":",
    );
    push_json_string(&mut p, id_name("esmart/room_temperature_", node_id, "/state").as_str());
    p.append(",\"device\":");
    push_device(
        &mut p,
        id_string("esmart_room_", node_id).as_str(),
        id_string("eSmart Room ", node_id).as_str(),
    );
    p.append(",\"icon\":\"mdi:radiator\",\"max_temp\":30,\"min_temp\":5,\"mode_command_topic\":");
    push_json_string(&mut p, id_name("esmart/room_", node_id, "_mode/set").as_str());
    p.append(
        ",\"mode_state_template\":\"{% if value_json.deviceOnOff == 1.0 %}heat{% else %}off{% endif %}\",\"mode_state_topic\":",
    );
    push_json_string(&mut p, id_name("esmart/room_heating_on_", node_id, "/state").as_str());
    p.append(",\"modes\":[\"off\",\"heat\"],\"name\":");
    push_json_string(&mut p, id_string("Room ", node_id).as_str());
    p.append(",\"temp_step\":0.5,\"temperature_command_topic\":");
    push_json_string(&mut p, id_name("esmart/room_", node_id, "_setpoint/set").as_str());
    p.append(
        ",\"temperature_state_template\":\"{{ value_json.setpoint }}\",\"temperature_state_topic\":",
    );
    push_json_string(&mut p, id_name("esmart/room_setpoint_", node_id, "/state").as_str());
    p.append(",\"temperature_unit\":\"C\",\"unique_id\":");
    push_json_string(&mut p, id_string("esmart_climate_", node_id).as_str());
    p.append("}");
    Publication { topic, payload: p, retain: true }
}

/// The discovery configuration of fan `id`.
pub open spec fn fan_config(id: u16) -> Seq<char> {
    "{\"command_topic\":"@ + json_quoted(around_id("esmart/fan_"@, id, "_onoff/set"@))
        + ",\"device\":"@ + device_json(with_id("esmart_fan_"@, id), with_id("eSmart Fan "@, id))
        + ",\"icon\":\"mdi:fan\",\"name\":"@ + json_quoted(with_id("Fan "@, id))
        + ",\"percentage_command_topic\":"@ + json_quoted(around_id("esmart/fan_"@, id, "_speed/set"@))
        + ",\"preset_mode_command_topic\":"@ + json_quoted(around_id("esmart/fan_"@, id, "_mode/set"@))
        + ",\"preset_modes\":[\"auto\",\"manual\"],\"state_topic\":"@ + json_quoted(
        around_id("esmart/fan_power_"@, id, "/state"@),
    )
        + ",\"state_value_template\":\"{% if value_json.power > 0 %}ON{% else %}OFF{% endif %}\",\"unique_id\":"@
        + json_quoted(with_id("esmart_fan_"@, id)) + "}"@
}

/// The retained discovery message of fan `id`.
pub open spec fn fan_discovery_spec(id: u16) -> (Seq<char>, Seq<char>) {
    (around_id("homeassistant/fan/esmart/fan_"@, id, "/config"@), fan_config(id))
}

pub fn fan_discovery(node_id: u16) -> (r: Publication)
    ensures
        (r.topic@, r.payload@) == fan_discovery_spec(node_id),
        r.retain,
{
    let topic = id_name("homeassistant/fan/esmart/fan_", node_id, "/config");
    let unique = id_string("esmart_fan_", node_id);
    let mut p = String::new();
    p.append("{\"command_topic\":");
    push_json_string(&mut p, id_name("esmart/fan_", node_id, "_onoff/set").as_str());
    p.append(",\"device\":");
    push_device(&mut p, unique.as_str(), id_string("eSmart Fan ", node_id).as_str());
    p.append(",\"icon\":\"mdi:fan\",\"name\":");
    push_json_string(&mut p, id_string("Fan ", node_id).as_str());
    p.append(",\"percentage_command_topic\":");
    push_json_string(&mut p, id_name("esmart/fan_", node_id, "_speed/set").as_str());
    p.append(",\"preset_mode_command_topic\":");
    push_json_string(&mut p, id_name("esmart/fan_", node_id, "_mode/set").as_str());
    p.append(",\"preset_modes\":[\"auto\",\"manual\"],\"state_topic\":");
    push_json_string(&mut p, id_name("esmart/fan_power_", node_id, "/state").as_str());
    p.append(
        ",\"state_value_template\":\"{% if value_json.power > 0 %}ON{% else %}OFF{% endif %}\",\"unique_id\":",
    );
    push_json_string(&mut p, unique.as_str());
    p.append("}");
    Publication { topic, payload: p, retain: true }
}

/// The discovery configuration of a switch.
pub open spec fn switch_config(
    entity_id: Seq<char>,
    name: Seq<char>,
    icon: Seq<char>,
    state_property: Seq<char>,
) -> Seq<char> {
    "{\"command_topic\":"@ + json_quoted("esmart/"@ + entity_id + "/set"@) + ",\"device\":"@
        + device_json("esmart_"@ + entity_id, "eSmart "@ + name) + ",\"icon\":"@ + json_quoted(icon)
        + ",\"name\":"@ + json_quoted(name)
        + ",\"payload_off\":\"OFF\",\"payload_on\":\"ON\",\"state_topic\":"@ + json_quoted(
        state_topic(entity_id),
    ) + ",\"unique_id\":"@ + json_quoted("esmart_"@ + entity_id) + ",\"value_template\":"@
        + json_quoted(
        "{% if value_json."@ + state_property + " == 1.0 %}ON{% else %}OFF{% endif %}"@,
    ) + "}"@
}

/// The retained discovery message of a switch.
pub open spec fn switch_discovery_spec(
    entity_id: Seq<char>,
    name: Seq<char>,
    icon: Seq<char>,
    state_property: Seq<char>,
) -> (Seq<char>, Seq<char>) {
    (
        "homeassistant/switch/esmart/"@ + entity_id + "/config"@,
        switch_config(entity_id, name, icon, state_property),
    )
}

pub fn switch_discovery(entity_id: &str, name: &str, icon: &str, state_property: &str) -> (r:
    Publication)
    ensures
        (r.topic@, r.payload@) == switch_discovery_spec(entity_id@, name@, icon@, state_property@),
        r.retain,
{
    let mut topic = String::new();
    topic.append("homeassistant/switch/esmart/");
    topic.append(entity_id);
    topic.append("/config");
    let mut command = String::new();
    command.append("esmart/");
    command.append(entity_id);
    command.append("/set");
    let mut unique = String::new();
    unique.append("esmart_");
    unique.append(entity_id);
    let mut device_name = String::new();
    device_name.append("eSmart ");
    device_name.append(name);
    let mut st = String::new();
    st.append("esmart/");
    st.append(entity_id);
    st.append("/state");
    let mut template = String::new();
    template.append("{% if value_json.");
    template.append(state_property);
    template.append(" == 1.0 %}ON{% else %}OFF{% endif %}");
    let mut p = String::new();
    p.append("{\"command_topic\":");
    push_json_string(&mut p, command.as_str());
    p.append(",\"device\":");
    push_device(&mut p, unique.as_str(), device_name.as_str());
    p.append(",\"icon\":");
    push_json_string(&mut p, icon);
    p.append(",\"name\":");
    push_json_string(&mut p, name);
    p.append(",\"payload_off\":\"OFF\",\"payload_on\":\"ON\",\"state_topic\":");
    push_json_string(&mut p, st.as_str());
    p.append(",\"unique_id\":");
    push_json_string(&mut p, unique.as_str());
    p.append(",\"value_template\":");
    push_json_string(&mut p, template.as_str());
    p.append("}");
    Publication { topic, payload: p, retain: true }
}


/// The message that publishes the text `text` as the state of statistic `id`
/// under `property`.
pub fn text_state_update(id: &str, property: &str, text: &str) -> (r: Publication)
    ensures
        (r.topic@, r.payload@) == state_update_spec(id@, property@, json_quoted(text@)),
        !r.retain,
{
    let value = json_quote(text);
    state_update(id, property, value.as_str())
}

} // verus!
