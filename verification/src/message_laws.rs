//! What the messages carry, stated in the literal text of the protocol: the
//! commands switch what their payloads say, and each published statistic holds
//! the reading its id names.

use vstd::prelude::*;
use crate::commands::{
    command_body, command_description, command_outcome, freecooling_body, holiday_body, message_text,
    room_mode, switch_on, Command, FanMode, PayloadNumber,
};
use crate::bridge::{resolution, step, BridgeView, ResolutionView};
use crate::data::{around_id, body_stats, meter_stats, node_stats, Body, Meter, Node, OnOff};
use crate::stats::{StatView, StatValueView};
use crate::time::UtcTime;
use crate::json::json_quoted;
use crate::laws::{law_climate_topics_recognised, law_switch_topics_recognised};
use crate::text::decimal;

verus! {

/// The word `"on"` or `"off"`, written out.
pub open spec fn switch_word(on: bool) -> Seq<char> {
    if on {
        seq!['o', 'n']
    } else {
        seq!['o', 'f', 'f']
    }
}

/// A character that stands as itself in a JSON string literal.
spec fn plain_char(c: char) -> bool {
    (c as u32) >= 0x20 && c != '"' && c != '\\'
}

proof fn lemma_plain_escaped(s: Seq<char>)
    requires
        forall|i: int| 0 <= i < s.len() ==> plain_char(#[trigger] s[i]),
    ensures
        crate::json::json_escaped(s) == s,
    decreases s.len(),
{
    if s.len() == 0 {
        assert(s =~= Seq::<char>::empty());
    } else {
        lemma_plain_escaped(s.drop_last());
        assert(plain_char(s[s.len() - 1]));
        assert(crate::json::json_escape_char(s.last()) =~= seq![s.last()]);
        assert(s =~= s.drop_last() + seq![s.last()]);
    }
}

proof fn lemma_quoted_switch_word(on: bool)
    ensures
        json_quoted(switch_word(on)) == seq!['"'] + switch_word(on) + seq!['"'],
{
    lemma_plain_escaped(switch_word(on));
}

proof fn lemma_room_mode_body(n: u16, on: bool, x: PayloadNumber)
    ensures
        command_body(Command::RoomMode(n, on), x) == "{\"nodes\":[{\"data\":{\"deviceOnOff\":\""@
            + switch_word(on) + "\"},\"id\":"@ + decimal(n as nat) + "}]}"@,
{
    reveal_strlit("on");
    reveal_strlit("off");
    reveal_strlit("deviceOnOff");
    reveal_strlit("{\"nodes\":[{\"data\":");
    reveal_strlit(",\"id\":");
    reveal_strlit("}]}");
    reveal_strlit("{\"nodes\":[{\"data\":{\"deviceOnOff\":\"");
    reveal_strlit("\"},\"id\":");
    reveal_strlit("{");
    reveal_strlit(":");
    lemma_quoted_switch_word(on);
    assert(crate::commands::on_off(on) =~= switch_word(on));
    reveal_strlit("{\"deviceOnOff\":\"");
    reveal_strlit("\"}");
    reveal_strlit("}");
    lemma_plain_escaped("deviceOnOff"@);
    let w = switch_word(on);
    let d = decimal(n as nat);
    let fo = crate::commands::field_object("deviceOnOff"@, json_quoted(crate::commands::on_off(on)));
    assert(json_quoted("deviceOnOff"@) == seq!['"'] + "deviceOnOff"@ + seq!['"']);
    assert(json_quoted(crate::commands::on_off(on)) == seq!['"'] + w + seq!['"']);
    assert("{"@ + (seq!['"'] + "deviceOnOff"@ + seq!['"']) + ":"@ + seq!['"'] =~= "{\"deviceOnOff\":\""@);
    assert(seq!['"'] + "}"@ =~= "\"}"@);
    assert(fo =~= "{\"deviceOnOff\":\""@ + w + "\"}"@);
    assert("{\"nodes\":[{\"data\":"@ + "{\"deviceOnOff\":\""@ =~= "{\"nodes\":[{\"data\":{\"deviceOnOff\":\""@);
    assert("\"}"@ + ",\"id\":"@ =~= "\"},\"id\":"@);
    assert(command_body(Command::RoomMode(n, on), x) == "{\"nodes\":[{\"data\":"@ + fo + ",\"id\":"@ + d
        + "}]}"@);
    assert(command_body(Command::RoomMode(n, on), x) =~= "{\"nodes\":[{\"data\":{\"deviceOnOff\":\""@
        + w + "\"},\"id\":"@ + d + "}]}"@);
}

/// A room's heating mode command sets that room's `deviceOnOff` to `"on"` when
/// the payload means on and to `"off"` when it means off, and its description
/// names the same word; a payload that is no mode is no command.
pub proof fn law_room_mode_command(
    jid: Seq<char>,
    ts: Seq<char>,
    n: u16,
    payload: Seq<char>,
    number: Option<PayloadNumber>,
)
    ensures
        match room_mode(payload) {
            Some(on) => command_outcome(jid, ts, around_id("esmart/room_"@, n, "_mode/set"@), payload, number)
                == Some(
                (
                    message_text(
                        jid,
                        ts,
                        "{\"nodes\":[{\"data\":{\"deviceOnOff\":\""@ + switch_word(on) + "\"},\"id\":"@
                            + decimal(n as nat) + "}]}"@,
                    ),
                    "Set room "@ + decimal(n as nat) + " heating to "@ + switch_word(on),
                ),
            ),
            None => command_outcome(jid, ts, around_id("esmart/room_"@, n, "_mode/set"@), payload, number)
                is None,
        },
{
    law_climate_topics_recognised(n, payload, number is Some);
    reveal_strlit("on");
    reveal_strlit("off");
    if let Some(on) = room_mode(payload) {
        lemma_room_mode_body(n, on, number->0);
        assert(crate::commands::on_off(on) =~= switch_word(on));
    }
}

/// Switching freecooling or holiday mode sends `"on"` or `"off"` as the payload
/// says: the MQTT command on `esmart/freecooling/set` (or
/// `esmart/holiday_mode/set`) sets `onoff` to `"on"` exactly when the payload
/// means on, so switching off never switches on.
pub proof fn law_switch_commands(jid: Seq<char>, ts: Seq<char>, payload: Seq<char>, number: Option<PayloadNumber>, on: bool)
    ensures
        freecooling_body(on) == "{\"freecooling\":{\"onoff\":\""@ + switch_word(on) + "\"}}"@,
        holiday_body(on) == "{\"holiday_mode\":{\"onoff\":\""@ + switch_word(on) + "\"}}"@,
        freecooling_body(true) != freecooling_body(false),
        holiday_body(true) != holiday_body(false),
        command_outcome(jid, ts, "esmart/freecooling/set"@, payload, number) == Some(
            (
                message_text(
                    jid,
                    ts,
                    "{\"freecooling\":{\"onoff\":\""@ + switch_word(switch_on(payload)) + "\"}}"@,
                ),
                "Set freecooling to "@ + switch_word(switch_on(payload)),
            ),
        ),
        command_outcome(jid, ts, "esmart/holiday_mode/set"@, payload, number) == Some(
            (
                message_text(
                    jid,
                    ts,
                    "{\"holiday_mode\":{\"onoff\":\""@ + switch_word(switch_on(payload)) + "\"}}"@,
                ),
                "Set holiday mode to "@ + switch_word(switch_on(payload)),
            ),
        ),
{
    reveal_strlit("on");
    reveal_strlit("off");
    reveal_strlit("esmart/");
    reveal_strlit("freecooling");
    reveal_strlit("holiday_mode");
    reveal_strlit("/set");
    reveal_strlit("esmart/freecooling/set");
    reveal_strlit("esmart/holiday_mode/set");
    law_switch_topics_recognised(payload, number is Some);
    assert("esmart/"@ + "freecooling"@ + "/set"@ =~= "esmart/freecooling/set"@);
    assert("esmart/"@ + "holiday_mode"@ + "/set"@ =~= "esmart/holiday_mode/set"@);
    assert(crate::commands::on_off(on) =~= switch_word(on));
    assert(crate::commands::on_off(true) =~= switch_word(true));
    assert(crate::commands::on_off(false) =~= switch_word(false));
    assert(crate::commands::on_off(switch_on(payload)) =~= switch_word(switch_on(payload)));
    let pre_f = "{\"freecooling\":{\"onoff\":\""@;
    let pre_h = "{\"holiday_mode\":{\"onoff\":\""@;
    reveal_strlit("{\"freecooling\":{\"onoff\":\"");
    reveal_strlit("{\"holiday_mode\":{\"onoff\":\"");
    reveal_strlit("\"}}");
    assert(freecooling_body(true)[pre_f.len() + 1 as int] != freecooling_body(false)[pre_f.len() + 1 as int]);
    assert(holiday_body(true)[pre_h.len() + 1 as int] != holiday_body(false)[pre_h.len() + 1 as int]);
}


/// The gathered values of a statistic are published as the latest of them when
/// they are texts (a fan's mode, a valve state, an error), also when only one
/// value is pending, and all of them (to be averaged) when they are readings.
pub proof fn law_texts_publish_latest<F>(q: Seq<StatValueView<F>>)
    requires
        q.len() > 0,
    ensures
        q[0] is Text ==> resolution(q) == ResolutionView::Last(q[q.len() - 1]),
        !(q[0] is Text) ==> resolution(q) == ResolutionView::Mean(q),
{
}

/// The first value of a text statistic is published as that text; the first
/// value of a reading is published alone.
pub proof fn law_first_text_published_as_is<F>(
    s: BridgeView<F>,
    id: Seq<char>,
    v: StatValueView<F>,
    now: UtcTime,
)
    requires
        !s.tracks.contains_key(id),
    ensures
        v is Text ==> step(s, id, v, now).1.update == Some(ResolutionView::Last(v)),
        !(v is Text) ==> step(s, id, v, now).1.update == Some(ResolutionView::Mean(seq![v])),
{
}

/// Entry `i` of `s` is the statistic `id` with value `v`.
pub open spec fn entry_is<F>(s: Seq<(Seq<char>, StatView, StatValueView<F>)>, i: int, id: Seq<char>, v: StatValueView<F>) -> bool {
    0 <= i < s.len() && s[i].0 == id && s[i].2 == v
}

/// Each statistic of a node carries the reading its id names: a room's
/// temperature, setpoint, heating state and power; a valve's power and state; an
/// actuator's position and orientation (as handed in, on Home Assistant's scale)
/// and power; a fan's speed, mode and power. A node of unknown kind has none.
pub proof fn law_node_stat_values<F>(n: Node<F>, p: F, o: F)
    ensures
        n matches Node::Room { id, data } ==> {
            let s = node_stats(n, p, o);
            let d = decimal(id as nat);
            &&& s.len() == 4
            &&& entry_is(s, 0, "room_temperature_"@ + d, StatValueView::Float(data.temperature))
            &&& entry_is(s, 1, "room_setpoint_"@ + d, StatValueView::Float(data.setpoint))
            &&& entry_is(s, 2, "room_heating_on_"@ + d, StatValueView::Flag(data.device_on_off == OnOff::On))
            &&& entry_is(s, 3, "room_heating_power_"@ + d, StatValueView::Float(data.power))
        },
        n matches Node::Valve { id, data } ==> {
            let s = node_stats(n, p, o);
            let d = decimal(id as nat);
            &&& s.len() == 2
            &&& entry_is(s, 0, "valve_power_"@ + d, StatValueView::Float(data.power))
            &&& entry_is(s, 1, "valve_on_"@ + d, StatValueView::Flag(data.onoff == OnOff::On))
        },
        n matches Node::Actuator { id, data } ==> {
            let s = node_stats(n, p, o);
            let d = decimal(id as nat);
            &&& s.len() == 3
            &&& entry_is(s, 0, "actuator_position_"@ + d, StatValueView::Float(p))
            &&& entry_is(s, 1, "actuator_orientation_"@ + d, StatValueView::Float(o))
            &&& entry_is(s, 2, "actuator_power_"@ + d, StatValueView::Float(data.power))
        },
        n matches Node::Fan { id, data } ==> {
            let s = node_stats(n, p, o);
            let d = decimal(id as nat);
            &&& s.len() == 3
            &&& entry_is(s, 0, "fan_speed_"@ + d, StatValueView::Text(data.speed@))
            &&& entry_is(s, 1, "fan_mode_"@ + d, StatValueView::Text(data.mode@))
            &&& entry_is(s, 2, "fan_power_"@ + d, StatValueView::Float(data.power))
        },
        n is Unknown ==> node_stats(n, p, o).len() == 0,
{
}

/// A meter's one statistic carries its reading: a flow meter's flow rate, a
/// power meter's power, a temperature meter's temperature.
pub proof fn law_meter_stat_values<F>(m: Meter<F>)
    ensures
        m matches Meter::Flow { id, flow_rate, .. } ==> meter_stats(m).len() == 1 && entry_is(
            meter_stats(m),
            0,
            "flow_"@ + decimal(id as nat),
            StatValueView::Float(flow_rate),
        ),
        m matches Meter::Power { id, power, .. } ==> meter_stats(m).len() == 1 && entry_is(
            meter_stats(m),
            0,
            "power_"@ + decimal(id as nat),
            StatValueView::Float(power),
        ),
        m matches Meter::Temperature { id, temperature } ==> meter_stats(m).len() == 1 && entry_is(
            meter_stats(m),
            0,
            "temperature_"@ + decimal(id as nat),
            StatValueView::Float(temperature),
        ),
{
}

/// The installation's statistics carry its fields: the holiday-mode and
/// freecooling switches, the valves state, and each of the three Modbus errors
/// from its own field, published as itself, or as `OK` when it is empty.
pub proof fn law_body_stat_values<F>(b: Body<F>)
    ensures
        body_stats(b).len() == 6,
        entry_is(body_stats(b), 0, "holiday_mode"@, StatValueView::Flag(b.holiday_mode.onoff == OnOff::On)),
        entry_is(body_stats(b), 1, "freecooling"@, StatValueView::Flag(b.freecooling.onoff == OnOff::On)),
        entry_is(body_stats(b), 2, "valves_state"@, StatValueView::Text(b.valves_state@)),
        entry_is(
            body_stats(b),
            3,
            "modbus_error"@,
            StatValueView::Text(
                if b.modbus_on_error@.len() == 0 {
                    "OK"@
                } else {
                    b.modbus_on_error@
                },
            ),
        ),
        entry_is(
            body_stats(b),
            4,
            "modbus_belimo_error"@,
            StatValueView::Text(
                if b.modbus_belimo_on_error@.len() == 0 {
                    "OK"@
                } else {
                    b.modbus_belimo_on_error@
                },
            ),
        ),
        entry_is(
            body_stats(b),
            5,
            "modbus_ac_error"@,
            StatValueView::Text(
                if b.modbus_ac_on_error@.len() == 0 {
                    "OK"@
                } else {
                    b.modbus_ac_on_error@
                },
            ),
        ),
{
}


/// The body that sets the one field `key` of node `id` to the JSON value `value`,
/// written out.
pub open spec fn set_field_body(id: u16, key: Seq<char>, value: Seq<char>) -> Seq<char> {
    "{\"nodes\":[{\"data\":{\""@ + key + "\":"@ + value + "},\"id\":"@ + decimal(id as nat) + "}]}"@
}

proof fn lemma_node_field(id: u16, key: Seq<char>, v: Seq<char>)
    requires
        forall|i: int| 0 <= i < key.len() ==> plain_char(#[trigger] key[i]),
    ensures
        crate::commands::node_body(id, crate::commands::field_object(key, v)) == set_field_body(id, key, v),
{
    reveal_strlit("{\"nodes\":[{\"data\":");
    reveal_strlit("{\"nodes\":[{\"data\":{\"");
    reveal_strlit(",\"id\":");
    reveal_strlit("},\"id\":");
    reveal_strlit("}]}");
    reveal_strlit("{");
    reveal_strlit(":");
    reveal_strlit("\":");
    reveal_strlit("}");
    lemma_plain_escaped(key);
    let d = decimal(id as nat);
    assert(json_quoted(key) == seq!['"'] + key + seq!['"']);
    assert("{\"nodes\":[{\"data\":"@ + "{"@ + seq!['"'] =~= "{\"nodes\":[{\"data\":{\""@);
    assert(seq!['"'] + ":"@ =~= "\":"@);
    assert("}"@ + ",\"id\":"@ =~= "},\"id\":"@);
    assert(crate::commands::node_body(id, crate::commands::field_object(key, v)) =~= set_field_body(id, key, v));
}

/// The commands to nodes set the field their topic names, of the node it names:
/// a room's setpoint to the number as read, an actuator's position or orientation
/// to the number clamped to 0..=100, a fan's speed to the text given (`"50%"` when
/// switched on, `"0%"` when off) and its mode to `"auto"` or `"manual"`; each
/// description says the same.
pub proof fn law_node_command_bodies(c: Command, x: PayloadNumber)
    ensures
        c matches Command::RoomSetpoint(id) ==> command_body(c, x) == set_field_body(id, "setpoint"@, x.raw.json@)
            && command_description(c, x) == "Set room "@ + decimal(id as nat) + " setpoint to "@
            + x.raw.display@ + "°C"@,
        c matches Command::ActuatorPosition(id) ==> command_body(c, x) == set_field_body(
            id,
            "position"@,
            x.clamped.json@,
        ) && command_description(c, x) == "Set actuator "@ + decimal(id as nat) + " position to "@
            + x.clamped.display@ + "%"@,
        c matches Command::ActuatorTilt(id) ==> command_body(c, x) == set_field_body(
            id,
            "orientation"@,
            x.clamped.json@,
        ) && command_description(c, x) == "Set actuator "@ + decimal(id as nat) + " orientation to "@
            + x.clamped.display@ + "%"@,
        c matches Command::FanSpeed(id, sp) ==> command_body(c, x) == set_field_body(id, "speed"@, json_quoted(sp))
            && command_description(c, x) == "Set fan "@ + decimal(id as nat) + " speed to "@ + sp,
        c matches Command::FanMode(id, m) ==> command_body(c, x) == set_field_body(
            id,
            "mode"@,
            if m == FanMode::Auto {
                "\"auto\""@
            } else {
                "\"manual\""@
            },
        ),
        c matches Command::FanOnOff(id, on) ==> command_body(c, x) == set_field_body(
            id,
            "speed"@,
            if on {
                "\"50%\""@
            } else {
                "\"0%\""@
            },
        ) && command_description(c, x) == "Set fan "@ + decimal(id as nat) + " to "@ + switch_word(on)
            + " (speed "@ + (if on {
            "50%"@
        } else {
            "0%"@
        }) + ")"@,
{
    reveal_strlit("setpoint");
    reveal_strlit("position");
    reveal_strlit("orientation");
    reveal_strlit("speed");
    reveal_strlit("mode");
    reveal_strlit("on");
    reveal_strlit("off");
    match c {
        Command::RoomSetpoint(id) => lemma_node_field(id, "setpoint"@, x.raw.json@),
        Command::ActuatorPosition(id) => lemma_node_field(id, "position"@, x.clamped.json@),
        Command::ActuatorTilt(id) => lemma_node_field(id, "orientation"@, x.clamped.json@),
        Command::FanSpeed(id, sp) => lemma_node_field(id, "speed"@, json_quoted(sp)),
        Command::FanMode(id, m) => {
            let w = crate::commands::fan_mode_word(m);
            lemma_node_field(id, "mode"@, json_quoted(w));
            reveal_strlit("auto");
            reveal_strlit("manual");
            reveal_strlit("\"auto\"");
            reveal_strlit("\"manual\"");
            lemma_plain_escaped(w);
            assert(json_quoted(w) =~= if m == FanMode::Auto {
                "\"auto\""@
            } else {
                "\"manual\""@
            });
        },
        Command::FanOnOff(id, on) => {
            let w = crate::commands::fan_switch_speed(on);
            lemma_node_field(id, "speed"@, json_quoted(w));
            reveal_strlit("50%");
            reveal_strlit("0%");
            reveal_strlit("\"50%\"");
            reveal_strlit("\"0%\"");
            lemma_plain_escaped(w);
            assert(json_quoted(w) =~= if on {
                "\"50%\""@
            } else {
                "\"0%\""@
            });
            assert(crate::commands::on_off(on) =~= switch_word(on));
        },
        _ => {},
    }
}

} // verus!
