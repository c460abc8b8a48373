//! Properties that tie the parts of the bridge together: the command topics that
//! discovery announces are the ones the command parser recognises, statistics
//! reveal the control entities of their nodes, statistic ids name what they
//! describe, and the throttling of state updates neither repeats announcements
//! nor loses values, over one value and over a whole run of them.

use vstd::prelude::*;
use crate::bridge::{control_entity_of, resolution, step, BridgeView, ControlEntity, StatActionsView};
use crate::commands::{
    command_of, fan_mode, fan_speed, room_mode, strip_prefix, strip_suffix, switch_on, topic_entity,
    Command,
};
use crate::data::{around_id, body_stats, meter_stats, node_stats, with_id, Body, Meter, Node};
use crate::discovery::state_topic;
use crate::stats::StatValueView;
use crate::text::{decimal, has_char, is_digit, lemma_decimal_digits, lemma_parse_decimal};
use crate::time::{nanos_of, UtcTime};

verus! {

proof fn lemma_strip_prefix(p: Seq<char>, x: Seq<char>)
    ensures
        strip_prefix(p + x, p) == Some(x),
{
    assert((p + x).subrange(0, p.len() as int) =~= p);
    assert((p + x).subrange(p.len() as int, (p + x).len() as int) =~= x);
}

proof fn lemma_strip_suffix(x: Seq<char>, q: Seq<char>)
    ensures
        strip_suffix(x + q, q) == Some(x),
{
    assert((x + q).subrange(x.len() as int, (x + q).len() as int) =~= q);
    assert((x + q).subrange(0, x.len() as int) =~= x);
}

proof fn lemma_no_suffix(x: Seq<char>, q: Seq<char>)
    requires
        x.len() > 0,
        q.len() > 0,
        x.last() != q.last(),
    ensures
        strip_suffix(x, q) is None,
{
    if q.len() <= x.len() {
        assert(x.subrange(x.len() - q.len(), x.len() as int)[q.len() - 1] == x.last());
    }
}

proof fn lemma_no_prefix(x: Seq<char>, p: Seq<char>)
    requires
        x.len() > 0,
        p.len() > 0,
        x[0] != p[0],
    ensures
        strip_prefix(x, p) is None,
{
    if p.len() <= x.len() {
        assert(x.subrange(0, p.len() as int)[0] == x[0]);
    }
}

/// `esmart/<e>/set` is a command topic for the entity `e` when `e` holds no `/`.
proof fn lemma_topic_entity(e: Seq<char>)
    requires
        !has_char(e, '/'),
    ensures
        topic_entity("esmart/"@ + e + "/set"@) == Some(e),
{
    lemma_strip_prefix("esmart/"@, e + "/set"@);
    assert("esmart/"@ + e + "/set"@ =~= "esmart/"@ + (e + "/set"@));
    lemma_strip_suffix(e, "/set"@);
}

/// The entity `<prefix><n><suffix>` of a node's command topic.
proof fn lemma_node_topic(prefix: Seq<char>, n: u16, suffix: Seq<char>)
    requires
        !has_char(prefix, '/'),
        !has_char(suffix, '/'),
    ensures
        topic_entity("esmart/"@ + (prefix + decimal(n as nat) + suffix) + "/set"@) == Some(
            prefix + decimal(n as nat) + suffix,
        ),
{
    let d = decimal(n as nat);
    lemma_decimal_digits(n as nat);
    let e = prefix + d + suffix;
    assert forall|i: int| 0 <= i < e.len() implies e[i] != '/' by {
        if i < prefix.len() {
            assert(e[i] == prefix[i]);
        } else if i < prefix.len() + d.len() {
            assert(e[i] == d[i - prefix.len()]);
        } else {
            assert(e[i] == suffix[i - prefix.len() - d.len()]);
        }
    }
    lemma_topic_entity(e);
}

/// Node ids written in decimal read back as the same node id.
pub proof fn law_node_id_round_trip(n: u16)
    ensures
        crate::commands::parse_node_id(decimal(n as nat)) == Some(n),
{
    lemma_parse_decimal(n as nat, 65535);
}

/// The command topics that a room's climate entity announces are recognised as
/// commands to that room: its mode topic sets the heating from the payload, its
/// temperature topic sets the setpoint when the payload is a number.
pub proof fn law_climate_topics_recognised(n: u16, payload: Seq<char>, has_number: bool)
    ensures
        command_of(around_id("esmart/room_"@, n, "_mode/set"@), payload, has_number) == match room_mode(
            payload,
        ) {
            Some(on) => Some(Command::RoomMode(n, on)),
            None => None,
        },
        command_of(around_id("esmart/room_"@, n, "_setpoint/set"@), payload, has_number) == if has_number {
            Some(Command::RoomSetpoint(n))
        } else {
            None
        },
{
    reveal_strlit("esmart/room_");
    reveal_strlit("_mode/set");
    reveal_strlit("_setpoint/set");
    reveal_strlit("esmart/");
    reveal_strlit("/set");
    reveal_strlit("room_");
    reveal_strlit("_mode");
    reveal_strlit("_setpoint");
    reveal_strlit("holiday_mode");
    reveal_strlit("freecooling");
    let d = decimal(n as nat);
    law_node_id_round_trip(n);
    lemma_decimal_digits(n as nat);
    assert(!has_char("room_"@, '/'));
    assert(!has_char("_mode"@, '/'));
    assert(!has_char("_setpoint"@, '/'));
    // the mode topic
    let e = "room_"@ + d + "_mode"@;
    lemma_node_topic("room_"@, n, "_mode"@);
    assert(around_id("esmart/room_"@, n, "_mode/set"@) =~= "esmart/"@ + e + "/set"@);
    assert(e[0] == 'r');
    assert(e != "holiday_mode"@);
    assert(e != "freecooling"@);
    lemma_strip_prefix("room_"@, d + "_mode"@);
    assert(e =~= "room_"@ + (d + "_mode"@));
    let rest = d + "_mode"@;
    assert(e.subrange("room_"@.len() as int, e.len() as int) =~= rest);
    lemma_no_suffix(rest, "_setpoint"@);
    lemma_strip_suffix(d, "_mode"@);
    // the setpoint topic
    let e2 = "room_"@ + d + "_setpoint"@;
    lemma_node_topic("room_"@, n, "_setpoint"@);
    assert(around_id("esmart/room_"@, n, "_setpoint/set"@) =~= "esmart/"@ + e2 + "/set"@);
    assert(e2[0] == 'r');
    assert(e2 != "holiday_mode"@);
    assert(e2 != "freecooling"@);
    lemma_strip_prefix("room_"@, d + "_setpoint"@);
    assert(e2 =~= "room_"@ + (d + "_setpoint"@));
    assert(e2.subrange("room_"@.len() as int, e2.len() as int) =~= d + "_setpoint"@);
    lemma_strip_suffix(d, "_setpoint"@);
}


/// The command topics that an actuator's cover entity announces are recognised
/// as commands to that actuator when the payload is a number.
#[verifier::spinoff_prover]
pub proof fn law_cover_topics_recognised(n: u16, payload: Seq<char>, has_number: bool)
    ensures
        command_of(around_id("esmart/actuator_"@, n, "_position/set"@), payload, has_number)
            == if has_number {
            Some(Command::ActuatorPosition(n))
        } else {
            None
        },
        command_of(around_id("esmart/actuator_"@, n, "_tilt/set"@), payload, has_number) == if has_number {
            Some(Command::ActuatorTilt(n))
        } else {
            None
        },
{
    reveal_strlit("esmart/actuator_");
    reveal_strlit("_position/set");
    reveal_strlit("_tilt/set");
    reveal_strlit("esmart/");
    reveal_strlit("/set");
    reveal_strlit("actuator_");
    reveal_strlit("room_");
    reveal_strlit("_position");
    reveal_strlit("_tilt");
    reveal_strlit("holiday_mode");
    reveal_strlit("freecooling");
    let d = decimal(n as nat);
    law_node_id_round_trip(n);
    lemma_decimal_digits(n as nat);
    assert(!has_char("actuator_"@, '/'));
    assert(!has_char("_position"@, '/'));
    assert(!has_char("_tilt"@, '/'));
    let e = "actuator_"@ + d + "_position"@;
    lemma_node_topic("actuator_"@, n, "_position"@);
    assert(around_id("esmart/actuator_"@, n, "_position/set"@) =~= "esmart/"@ + e + "/set"@);
    assert(e[0] == 'a');
    assert(e != "holiday_mode"@);
    assert(e != "freecooling"@);
    lemma_no_prefix(e, "room_"@);
    lemma_strip_prefix("actuator_"@, d + "_position"@);
    assert(e =~= "actuator_"@ + (d + "_position"@));
    assert(e.subrange("actuator_"@.len() as int, e.len() as int) =~= d + "_position"@);
    lemma_strip_suffix(d, "_position"@);
    let e2 = "actuator_"@ + d + "_tilt"@;
    lemma_node_topic("actuator_"@, n, "_tilt"@);
    assert(around_id("esmart/actuator_"@, n, "_tilt/set"@) =~= "esmart/"@ + e2 + "/set"@);
    assert(e2[0] == 'a');
    assert(e2 != "holiday_mode"@);
    assert(e2 != "freecooling"@);
    lemma_no_prefix(e2, "room_"@);
    lemma_strip_prefix("actuator_"@, d + "_tilt"@);
    assert(e2 =~= "actuator_"@ + (d + "_tilt"@));
    let rest = d + "_tilt"@;
    assert(e2.subrange("actuator_"@.len() as int, e2.len() as int) =~= rest);
    lemma_no_suffix(rest, "_position"@);
    lemma_strip_suffix(d, "_tilt"@);
}

proof fn lemma_fan_entity(n: u16, suffix: Seq<char>)
    requires
        !has_char(suffix, '/'),
        suffix.len() > 0,
    ensures
        ({
            let e = "fan_"@ + decimal(n as nat) + suffix;
            &&& topic_entity(around_id("esmart/fan_"@, n, suffix + "/set"@)) == Some(e)
            &&& e != "holiday_mode"@
            &&& e != "freecooling"@
            &&& strip_prefix(e, "room_"@) is None
            &&& strip_prefix(e, "actuator_"@) is None
            &&& strip_prefix(e, "fan_"@) == Some(decimal(n as nat) + suffix)
        }),
{
    reveal_strlit("esmart/fan_");
    reveal_strlit("esmart/");
    reveal_strlit("/set");
    reveal_strlit("fan_");
    reveal_strlit("actuator_");
    reveal_strlit("room_");
    reveal_strlit("holiday_mode");
    reveal_strlit("freecooling");
    let d = decimal(n as nat);
    assert(!has_char("fan_"@, '/'));
    let e = "fan_"@ + d + suffix;
    lemma_node_topic("fan_"@, n, suffix);
    assert(around_id("esmart/fan_"@, n, suffix + "/set"@) =~= "esmart/"@ + e + "/set"@);
    assert(e[1] == 'a');
    assert(e != "holiday_mode"@);
    assert(e != "freecooling"@);
    lemma_no_prefix(e, "room_"@);
    lemma_no_prefix(e, "actuator_"@);
    lemma_strip_prefix("fan_"@, d + suffix);
    assert(e =~= "fan_"@ + (d + suffix));
}

proof fn lemma_fan_onoff_topic(n: u16, payload: Seq<char>, has_number: bool)
    ensures
        command_of(around_id("esmart/fan_"@, n, "_onoff/set"@), payload, has_number) == Some(
            Command::FanOnOff(n, switch_on(payload)),
        ),
{
    reveal_strlit("_onoff/set");
    reveal_strlit("/set");
    reveal_strlit("_onoff");
    reveal_strlit("_speed");
    reveal_strlit("_mode");
    assert(!has_char("_onoff"@, '/'));
    assert("_onoff"@ + "/set"@ =~= "_onoff/set"@);
    lemma_fan_entity(n, "_onoff"@);
    let d = decimal(n as nat);
    law_node_id_round_trip(n);
    let rest = d + "_onoff"@;
    lemma_no_suffix(rest, "_speed"@);
    lemma_no_suffix(rest, "_mode"@);
    lemma_strip_suffix(d, "_onoff"@);
}

proof fn lemma_fan_speed_topic(n: u16, payload: Seq<char>, has_number: bool)
    ensures
        command_of(around_id("esmart/fan_"@, n, "_speed/set"@), payload, has_number) == match fan_speed(
            payload,
        ) {
            Some(speed) => Some(Command::FanSpeed(n, speed)),
            None => None,
        },
{
    reveal_strlit("_speed/set");
    reveal_strlit("/set");
    reveal_strlit("_speed");
    assert(!has_char("_speed"@, '/'));
    assert("_speed"@ + "/set"@ =~= "_speed/set"@);
    lemma_fan_entity(n, "_speed"@);
    let d = decimal(n as nat);
    law_node_id_round_trip(n);
    lemma_strip_suffix(d, "_speed"@);
}

proof fn lemma_fan_mode_topic(n: u16, payload: Seq<char>, has_number: bool)
    ensures
        command_of(around_id("esmart/fan_"@, n, "_mode/set"@), payload, has_number) == match fan_mode(
            payload,
        ) {
            Some(m) => Some(Command::FanMode(n, m)),
            None => None,
        },
{
    reveal_strlit("_mode/set");
    reveal_strlit("/set");
    reveal_strlit("_speed");
    reveal_strlit("_mode");
    assert(!has_char("_mode"@, '/'));
    assert("_mode"@ + "/set"@ =~= "_mode/set"@);
    lemma_fan_entity(n, "_mode"@);
    let d = decimal(n as nat);
    law_node_id_round_trip(n);
    let rest = d + "_mode"@;
    lemma_no_suffix(rest, "_speed"@);
    lemma_strip_suffix(d, "_mode"@);
}

/// The command topics that a fan entity announces are recognised as commands to
/// that fan: on/off, speed and preset mode.
pub proof fn law_fan_topics_recognised(n: u16, payload: Seq<char>, has_number: bool)
    ensures
        command_of(around_id("esmart/fan_"@, n, "_onoff/set"@), payload, has_number) == Some(
            Command::FanOnOff(n, switch_on(payload)),
        ),
        command_of(around_id("esmart/fan_"@, n, "_speed/set"@), payload, has_number) == match fan_speed(
            payload,
        ) {
            Some(speed) => Some(Command::FanSpeed(n, speed)),
            None => None,
        },
        command_of(around_id("esmart/fan_"@, n, "_mode/set"@), payload, has_number) == match fan_mode(
            payload,
        ) {
            Some(m) => Some(Command::FanMode(n, m)),
            None => None,
        },
{
    lemma_fan_onoff_topic(n, payload, has_number);
    lemma_fan_speed_topic(n, payload, has_number);
    lemma_fan_mode_topic(n, payload, has_number);
}

/// The command topics that the holiday-mode and freecooling switches announce
/// are recognised as those switches.
pub proof fn law_switch_topics_recognised(payload: Seq<char>, has_number: bool)
    ensures
        command_of("esmart/"@ + "holiday_mode"@ + "/set"@, payload, has_number) == Some(
            Command::HolidayMode(switch_on(payload)),
        ),
        command_of("esmart/"@ + "freecooling"@ + "/set"@, payload, has_number) == Some(
            Command::Freecooling(switch_on(payload)),
        ),
{
    reveal_strlit("holiday_mode");
    reveal_strlit("freecooling");
    assert(!has_char("holiday_mode"@, '/'));
    assert(!has_char("freecooling"@, '/'));
    lemma_topic_entity("holiday_mode"@);
    lemma_topic_entity("freecooling"@);
}


/// The statistics of a room, an actuator and a fan reveal that node's control
/// entity: its climate, its cover, its fan.
pub proof fn law_statistics_reveal_control_entities(n: u16)
    ensures
        control_entity_of(with_id("room_temperature_"@, n)) == Some(ControlEntity::Climate(n)),
        control_entity_of(with_id("actuator_position_"@, n)) == Some(ControlEntity::Cover(n)),
        control_entity_of(with_id("fan_power_"@, n)) == Some(ControlEntity::Fan(n)),
{
    reveal_strlit("room_temperature_");
    reveal_strlit("actuator_position_");
    reveal_strlit("fan_power_");
    let d = decimal(n as nat);
    law_node_id_round_trip(n);
    lemma_strip_prefix("room_temperature_"@, d);
    lemma_strip_prefix("actuator_position_"@, d);
    lemma_strip_prefix("fan_power_"@, d);
    let a = "actuator_position_"@ + d;
    assert(a[0] == 'a');
    lemma_no_prefix(a, "room_temperature_"@);
    let f = "fan_power_"@ + d;
    assert(f[0] == 'f');
    lemma_no_prefix(f, "room_temperature_"@);
    lemma_no_prefix(f, "actuator_position_"@);
}

/// The first value of a statistic announces its sensor, announces the control
/// entity it reveals, and is published at once.
pub proof fn law_first_value_published<F>(
    s: BridgeView<F>,
    id: Seq<char>,
    v: StatValueView<F>,
    now: UtcTime,
)
    requires
        !s.tracks.contains_key(id),
    ensures
        step(s, id, v, now).1.sensor_discovery,
        step(s, id, v, now).1.control == control_entity_of(id),
        step(s, id, v, now).1.update == Some(resolution(seq![v])),
        step(s, id, v, now).0.tracks[id].last == Some(now),
{
}

/// Once a statistic has been seen, its sensor is not announced again.
pub proof fn law_sensor_announced_once<F>(
    s: BridgeView<F>,
    id: Seq<char>,
    v1: StatValueView<F>,
    t1: UtcTime,
    v2: StatValueView<F>,
    t2: UtcTime,
)
    ensures
        !step(step(s, id, v1, t1).0, id, v2, t2).1.sensor_discovery,
{
}

/// Once a statistic has been seen, the control entity it reveals is not announced
/// again.
pub proof fn law_control_announced_once<F>(
    s: BridgeView<F>,
    id: Seq<char>,
    v1: StatValueView<F>,
    t1: UtcTime,
    v2: StatValueView<F>,
    t2: UtcTime,
)
    ensures
        step(step(s, id, v1, t1).0, id, v2, t2).1.control is None,
{
}

/// No value is lost: a value is either kept with those pending for its
/// statistic, or published together with all of them; after a publication
/// nothing is pending and the publication time is recorded.
pub proof fn law_values_kept_or_published<F>(
    s: BridgeView<F>,
    id: Seq<char>,
    v: StatValueView<F>,
    now: UtcTime,
)
    requires
        s.tracks.contains_key(id),
    ensures
        ({
            let (s2, a) = step(s, id, v, now);
            let pending = s.tracks[id].queue.push(v);
            match a.update {
                Some(r) => r == resolution(pending) && s2.tracks[id].queue == Seq::<
                    StatValueView<F>,
                >::empty() && s2.tracks[id].last == Some(now),
                None => s2.tracks[id].queue == pending && s2.tracks[id].last == s.tracks[id].last,
            }
        }),
{
}

/// Throttling: a value received no later than the throttle after the last
/// publication of its statistic is not published; one received after it is,
/// with all the values pending, and its time becomes the last publication, so
/// two publications of a statistic are more than the throttle apart.
pub proof fn law_throttle<F>(s: BridgeView<F>, id: Seq<char>, v: StatValueView<F>, now: UtcTime, t: UtcTime)
    requires
        s.tracks.contains_key(id),
        s.tracks[id].last == Some(t),
    ensures
        nanos_of(now) <= nanos_of(t) + s.throttle_secs * 1_000_000_000 ==> step(s, id, v, now).1.update is None,
        nanos_of(now) > nanos_of(t) + s.throttle_secs * 1_000_000_000 ==> step(s, id, v, now).1.update
            == Some(resolution(s.tracks[id].queue.push(v))),
        step(s, id, v, now).1.update is Some ==> step(s, id, v, now).0.tracks[id].last == Some(now)
            && nanos_of(now) > nanos_of(t) + s.throttle_secs * 1_000_000_000,
{
}

/// A value of one statistic leaves every other statistic as it was.
pub proof fn law_other_statistics_unchanged<F>(
    s: BridgeView<F>,
    id: Seq<char>,
    v: StatValueView<F>,
    now: UtcTime,
    other: Seq<char>,
)
    requires
        other != id,
    ensures
        step(s, id, v, now).0.tracks.contains_key(other) == s.tracks.contains_key(other),
        s.tracks.contains_key(other) ==> step(s, id, v, now).0.tracks[other] == s.tracks[other],
        step(s, id, v, now).0.throttle_secs == s.throttle_secs,
{
}


proof fn lemma_state_topic(prefix: Seq<char>, n: u16)
    ensures
        around_id("esmart/"@ + prefix, n, "/state"@) == state_topic(with_id(prefix, n)),
{
    assert(around_id("esmart/"@ + prefix, n, "/state"@) =~= state_topic(with_id(prefix, n)));
}

/// The state topics that the climate, cover and fan entities read are the topics
/// on which the statistics of the same node are published.
pub proof fn law_control_entities_read_published_states(n: u16)
    ensures
        around_id("esmart/room_temperature_"@, n, "/state"@) == state_topic(
            with_id("room_temperature_"@, n),
        ),
        around_id("esmart/room_setpoint_"@, n, "/state"@) == state_topic(
            with_id("room_setpoint_"@, n),
        ),
        around_id("esmart/room_heating_on_"@, n, "/state"@) == state_topic(
            with_id("room_heating_on_"@, n),
        ),
        around_id("esmart/actuator_position_"@, n, "/state"@) == state_topic(
            with_id("actuator_position_"@, n),
        ),
        around_id("esmart/actuator_orientation_"@, n, "/state"@) == state_topic(
            with_id("actuator_orientation_"@, n),
        ),
        around_id("esmart/fan_power_"@, n, "/state"@) == state_topic(with_id("fan_power_"@, n)),
{
    reveal_strlit("esmart/");
    reveal_strlit("esmart/room_temperature_");
    reveal_strlit("room_temperature_");
    reveal_strlit("esmart/room_setpoint_");
    reveal_strlit("room_setpoint_");
    reveal_strlit("esmart/room_heating_on_");
    reveal_strlit("room_heating_on_");
    reveal_strlit("esmart/actuator_position_");
    reveal_strlit("actuator_position_");
    reveal_strlit("esmart/actuator_orientation_");
    reveal_strlit("actuator_orientation_");
    reveal_strlit("esmart/fan_power_");
    reveal_strlit("fan_power_");
    assert("esmart/room_temperature_"@ =~= "esmart/"@ + "room_temperature_"@);
    assert("esmart/room_setpoint_"@ =~= "esmart/"@ + "room_setpoint_"@);
    assert("esmart/room_heating_on_"@ =~= "esmart/"@ + "room_heating_on_"@);
    assert("esmart/actuator_position_"@ =~= "esmart/"@ + "actuator_position_"@);
    assert("esmart/actuator_orientation_"@ =~= "esmart/"@ + "actuator_orientation_"@);
    assert("esmart/fan_power_"@ =~= "esmart/"@ + "fan_power_"@);
    lemma_state_topic("room_temperature_"@, n);
    lemma_state_topic("room_setpoint_"@, n);
    lemma_state_topic("room_heating_on_"@, n);
    lemma_state_topic("actuator_position_"@, n);
    lemma_state_topic("actuator_orientation_"@, n);
    lemma_state_topic("fan_power_"@, n);
}


/// The prefixes of the statistic ids of nodes (rooms, valves, actuators, fans,
/// in the order of their statistics) and of meters (flow, power, temperature).
spec fn id_prefixes() -> Seq<Seq<char>> {
    seq![
        "room_temperature_"@,
        "room_setpoint_"@,
        "room_heating_on_"@,
        "room_heating_power_"@,
        "valve_power_"@,
        "valve_on_"@,
        "actuator_position_"@,
        "actuator_orientation_"@,
        "actuator_power_"@,
        "fan_speed_"@,
        "fan_mode_"@,
        "fan_power_"@,
        "flow_"@,
        "power_"@,
        "temperature_"@,
    ]
}

spec fn no_digit(s: Seq<char>) -> bool {
    forall|i: int| 0 <= i < s.len() ==> !is_digit(#[trigger] s[i])
}

proof fn lemma_prefixes(k1: int, k2: int)
    requires
        0 <= k1 < 15,
        0 <= k2 < 15,
    ensures
        no_digit(id_prefixes()[k1]),
        id_prefixes()[k1] == id_prefixes()[k2] ==> k1 == k2,
{
    reveal_strlit("room_temperature_");
    reveal_strlit("room_setpoint_");
    reveal_strlit("room_heating_on_");
    reveal_strlit("room_heating_power_");
    reveal_strlit("valve_power_");
    reveal_strlit("valve_on_");
    reveal_strlit("actuator_position_");
    reveal_strlit("actuator_orientation_");
    reveal_strlit("actuator_power_");
    reveal_strlit("fan_speed_");
    reveal_strlit("fan_mode_");
    reveal_strlit("fan_power_");
    reveal_strlit("flow_");
    reveal_strlit("power_");
    reveal_strlit("temperature_");
    let a = id_prefixes()[k1];
    let b = id_prefixes()[k2];
    if a == b {
        assert(a.len() == b.len() && a[0] == b[0] && a[4] == b[4]);
    }
}


/// `a` and `b` are nodes of the same known kind with the same id.
pub open spec fn same_node<F>(a: Node<F>, b: Node<F>) -> bool {
    match (a, b) {
        (Node::Room { id: x, .. }, Node::Room { id: y, .. }) => x == y,
        (Node::Valve { id: x, .. }, Node::Valve { id: y, .. }) => x == y,
        (Node::Actuator { id: x, .. }, Node::Actuator { id: y, .. }) => x == y,
        (Node::Fan { id: x, .. }, Node::Fan { id: y, .. }) => x == y,
        _ => false,
    }
}

/// `a` and `b` are meters of the same kind with the same id.
pub open spec fn same_meter<F>(a: Meter<F>, b: Meter<F>) -> bool {
    match (a, b) {
        (Meter::Flow { id: x, .. }, Meter::Flow { id: y, .. }) => x == y,
        (Meter::Power { id: x, .. }, Meter::Power { id: y, .. }) => x == y,
        (Meter::Temperature { id: x, .. }, Meter::Temperature { id: y, .. }) => x == y,
        _ => false,
    }
}

/// Where the prefixes of a node's statistic ids start in [`id_prefixes`].
spec fn node_base<F>(n: Node<F>) -> int {
    match n {
        Node::Room { .. } => 0,
        Node::Valve { .. } => 4,
        Node::Actuator { .. } => 6,
        Node::Fan { .. } => 9,
        Node::Unknown => 0,
    }
}

spec fn node_number<F>(n: Node<F>) -> u16 {
    match n {
        Node::Room { id, .. } => id,
        Node::Valve { id, .. } => id,
        Node::Actuator { id, .. } => id,
        Node::Fan { id, .. } => id,
        Node::Unknown => 0,
    }
}

spec fn meter_base<F>(m: Meter<F>) -> int {
    match m {
        Meter::Flow { .. } => 12,
        Meter::Power { .. } => 13,
        Meter::Temperature { .. } => 14,
    }
}

spec fn meter_number<F>(m: Meter<F>) -> u16 {
    match m {
        Meter::Flow { id, .. } => id,
        Meter::Power { id, .. } => id,
        Meter::Temperature { id, .. } => id,
    }
}

proof fn lemma_node_key<F>(n: Node<F>, p: F, o: F, i: int)
    requires
        0 <= i < node_stats(n, p, o).len(),
    ensures
        0 <= node_base(n) + i < 12,
        node_stats(n, p, o)[i].0 == with_id(id_prefixes()[node_base(n) + i], node_number(n)),
{
}

proof fn lemma_meter_key<F>(m: Meter<F>, j: int)
    requires
        0 <= j < meter_stats(m).len(),
    ensures
        j == 0,
        meter_stats(m).len() == 1,
        12 <= meter_base(m) < 15,
        meter_stats(m)[j].0 == with_id(id_prefixes()[meter_base(m)], meter_number(m)),
{
}

/// A prefix without digits followed by a decimal number splits back into both.
proof fn lemma_key_split(p1: Seq<char>, id1: u16, p2: Seq<char>, id2: u16)
    requires
        no_digit(p1),
        no_digit(p2),
        with_id(p1, id1) == with_id(p2, id2),
    ensures
        p1 == p2,
        id1 == id2,
{
    lemma_decimal_digits(id1 as nat);
    lemma_decimal_digits(id2 as nat);
    let d1 = decimal(id1 as nat);
    let d2 = decimal(id2 as nat);
    let k = p1 + d1;
    assert(k == p2 + d2);
    if p1.len() < p2.len() {
        assert(k[p1.len() as int] == d1[0]);
        assert(k[p1.len() as int] == p2[p1.len() as int]);
        assert(is_digit(d1[0]));
    }
    if p2.len() < p1.len() {
        assert(k[p2.len() as int] == d2[0]);
        assert(k[p2.len() as int] == p1[p2.len() as int]);
        assert(is_digit(d2[0]));
    }
    assert(p1 =~= k.subrange(0, p1.len() as int));
    assert(p2 =~= k.subrange(0, p2.len() as int));
    assert(d1 =~= k.subrange(p1.len() as int, k.len() as int));
    assert(d2 =~= k.subrange(p2.len() as int, k.len() as int));
}

/// An id that ends in a decimal number is not a word that ends in a non-digit.
proof fn lemma_key_not_word(p: Seq<char>, id: u16, w: Seq<char>)
    requires
        w.len() > 0,
        !is_digit(w.last()),
    ensures
        with_id(p, id) != w,
{
    lemma_decimal_digits(id as nat);
    let d = decimal(id as nat);
    assert((p + d).last() == d[d.len() - 1]);
    assert(is_digit(d[d.len() - 1]));
}

proof fn lemma_body_keys<F>(b: Body<F>, j: int, k: int)
    requires
        0 <= j < body_stats(b).len(),
        0 <= k < body_stats(b).len(),
    ensures
        body_stats(b)[j].0.len() > 0,
        !is_digit(body_stats(b)[j].0.last()),
        body_stats(b)[j].0 == body_stats(b)[k].0 ==> j == k,
{
    reveal_strlit("holiday_mode");
    reveal_strlit("freecooling");
    reveal_strlit("valves_state");
    reveal_strlit("modbus_error");
    reveal_strlit("modbus_belimo_error");
    reveal_strlit("modbus_ac_error");
    let x = body_stats(b)[j].0;
    let y = body_stats(b)[k].0;
    if x == y {
        assert(x.len() == y.len() && x[0] == y[0] && x[7] == y[7]);
    }
}

/// Statistic ids name what they describe: two statistics of nodes have the same
/// id only when they are the same statistic of the same node, so the statistics
/// of one node have distinct ids and no two nodes publish under one id.
pub proof fn law_node_stat_ids_distinct<F>(a: Node<F>, pa: F, oa: F, b: Node<F>, pb: F, ob: F)
    ensures
        forall|i: int, j: int|
            #![trigger node_stats(a, pa, oa)[i], node_stats(b, pb, ob)[j]]
            0 <= i < node_stats(a, pa, oa).len() && 0 <= j < node_stats(b, pb, ob).len()
                && node_stats(a, pa, oa)[i].0 == node_stats(b, pb, ob)[j].0 ==> i == j && same_node(
                a,
                b,
            ),
        forall|i: int, j: int|
            #![trigger node_stats(a, pa, oa)[i], node_stats(a, pa, oa)[j]]
            0 <= i < j < node_stats(a, pa, oa).len() ==> node_stats(a, pa, oa)[i].0 != node_stats(
                a,
                pa,
                oa,
            )[j].0,
{
    assert forall|i: int, j: int|
        #![trigger node_stats(a, pa, oa)[i], node_stats(b, pb, ob)[j]]
        0 <= i < node_stats(a, pa, oa).len() && 0 <= j < node_stats(b, pb, ob).len()
            && node_stats(a, pa, oa)[i].0 == node_stats(b, pb, ob)[j].0 implies i == j && same_node(
        a,
        b,
    ) by {
        lemma_node_key(a, pa, oa, i);
        lemma_node_key(b, pb, ob, j);
        lemma_prefixes(node_base(a) + i, node_base(b) + j);
        lemma_prefixes(node_base(b) + j, node_base(a) + i);
        lemma_key_split(
            id_prefixes()[node_base(a) + i],
            node_number(a),
            id_prefixes()[node_base(b) + j],
            node_number(b),
        );
    }
    assert forall|i: int, j: int|
        #![trigger node_stats(a, pa, oa)[i], node_stats(a, pa, oa)[j]]
        0 <= i < j < node_stats(a, pa, oa).len() implies node_stats(a, pa, oa)[i].0 != node_stats(
        a,
        pa,
        oa,
    )[j].0 by {
        lemma_node_key(a, pa, oa, i);
        lemma_node_key(a, pa, oa, j);
        lemma_prefixes(node_base(a) + i, node_base(a) + j);
        lemma_prefixes(node_base(a) + j, node_base(a) + i);
        if node_stats(a, pa, oa)[i].0 == node_stats(a, pa, oa)[j].0 {
            lemma_key_split(
                id_prefixes()[node_base(a) + i],
                node_number(a),
                id_prefixes()[node_base(a) + j],
                node_number(a),
            );
        }
    }
}

/// The statistics of nodes, of meters and of the installation's switches and
/// states never share an id; two meters share an id only when they are the same
/// kind of meter with the same id; the installation's statistics have distinct ids.
pub proof fn law_stat_ids_disjoint<F>(n: Node<F>, p: F, o: F, m: Meter<F>, m2: Meter<F>, body: Body<F>)
    ensures
        forall|i: int, j: int|
            #![trigger node_stats(n, p, o)[i], meter_stats(m)[j]]
            0 <= i < node_stats(n, p, o).len() && 0 <= j < meter_stats(m).len() ==> node_stats(
                n,
                p,
                o,
            )[i].0 != meter_stats(m)[j].0,
        forall|i: int, j: int|
            #![trigger node_stats(n, p, o)[i], body_stats(body)[j]]
            0 <= i < node_stats(n, p, o).len() && 0 <= j < body_stats(body).len() ==> node_stats(
                n,
                p,
                o,
            )[i].0 != body_stats(body)[j].0,
        forall|i: int, j: int|
            #![trigger meter_stats(m)[i], body_stats(body)[j]]
            0 <= i < meter_stats(m).len() && 0 <= j < body_stats(body).len() ==> meter_stats(m)[i].0
                != body_stats(body)[j].0,
        forall|i: int, j: int|
            #![trigger meter_stats(m)[i], meter_stats(m2)[j]]
            0 <= i < meter_stats(m).len() && 0 <= j < meter_stats(m2).len() && meter_stats(m)[i].0
                == meter_stats(m2)[j].0 ==> same_meter(m, m2),
        forall|i: int, j: int|
            #![trigger body_stats(body)[i], body_stats(body)[j]]
            0 <= i < j < body_stats(body).len() ==> body_stats(body)[i].0 != body_stats(body)[j].0,
{
    assert forall|i: int, j: int|
        #![trigger node_stats(n, p, o)[i], meter_stats(m)[j]]
        0 <= i < node_stats(n, p, o).len() && 0 <= j < meter_stats(m).len() implies node_stats(
        n,
        p,
        o,
    )[i].0 != meter_stats(m)[j].0 by {
        lemma_node_key(n, p, o, i);
        lemma_meter_key(m, j);
        lemma_prefixes(node_base(n) + i, meter_base(m));
        lemma_prefixes(meter_base(m), node_base(n) + i);
        if node_stats(n, p, o)[i].0 == meter_stats(m)[j].0 {
            lemma_key_split(
                id_prefixes()[node_base(n) + i],
                node_number(n),
                id_prefixes()[meter_base(m)],
                meter_number(m),
            );
        }
    }
    assert forall|i: int, j: int|
        #![trigger node_stats(n, p, o)[i], body_stats(body)[j]]
        0 <= i < node_stats(n, p, o).len() && 0 <= j < body_stats(body).len() implies node_stats(
        n,
        p,
        o,
    )[i].0 != body_stats(body)[j].0 by {
        lemma_node_key(n, p, o, i);
        lemma_body_keys(body, j, j);
        lemma_key_not_word(id_prefixes()[node_base(n) + i], node_number(n), body_stats(body)[j].0);
    }
    assert forall|i: int, j: int|
        #![trigger meter_stats(m)[i], body_stats(body)[j]]
        0 <= i < meter_stats(m).len() && 0 <= j < body_stats(body).len() implies meter_stats(m)[i].0
        != body_stats(body)[j].0 by {
        lemma_meter_key(m, i);
        lemma_body_keys(body, j, j);
        lemma_key_not_word(id_prefixes()[meter_base(m)], meter_number(m), body_stats(body)[j].0);
    }
    assert forall|i: int, j: int|
        #![trigger meter_stats(m)[i], meter_stats(m2)[j]]
        0 <= i < meter_stats(m).len() && 0 <= j < meter_stats(m2).len() && meter_stats(m)[i].0
            == meter_stats(m2)[j].0 implies same_meter(m, m2) by {
        lemma_meter_key(m, i);
        lemma_meter_key(m2, j);
        lemma_prefixes(meter_base(m), meter_base(m2));
        lemma_prefixes(meter_base(m2), meter_base(m));
        lemma_key_split(
            id_prefixes()[meter_base(m)],
            meter_number(m),
            id_prefixes()[meter_base(m2)],
            meter_number(m2),
        );
    }
    assert forall|i: int, j: int|
        #![trigger body_stats(body)[i], body_stats(body)[j]]
        0 <= i < j < body_stats(body).len() implies body_stats(body)[i].0 != body_stats(body)[j].0 by {
        lemma_body_keys(body, i, j);
    }
}


/// The state of the bridge after it has taken `events` (a statistic id, a value
/// and the time it was received) in order, starting from `s`.
pub open spec fn run<F>(s: BridgeView<F>, events: Seq<(Seq<char>, StatValueView<F>, UtcTime)>) -> BridgeView<
    F,
>
    decreases events.len(),
{
    if events.len() == 0 {
        s
    } else {
        let e = events.last();
        step(run(s, events.drop_last()), e.0, e.1, e.2).0
    }
}

/// What the bridge does on event `k` of `events`, starting from `s`.
pub open spec fn actions_at<F>(
    s: BridgeView<F>,
    events: Seq<(Seq<char>, StatValueView<F>, UtcTime)>,
    k: int,
) -> StatActionsView<F> {
    step(run(s, events.take(k)), events[k].0, events[k].1, events[k].2).1
}

/// The values of statistic `id` among events `i + 1 .. m`, in order.
pub open spec fn values_between<F>(
    events: Seq<(Seq<char>, StatValueView<F>, UtcTime)>,
    id: Seq<char>,
    i: int,
    m: int,
) -> Seq<StatValueView<F>>
    decreases m - i,
{
    if m <= i + 1 {
        Seq::empty()
    } else {
        let p = values_between(events, id, i, m - 1);
        if events[m - 1].0 == id {
            p.push(events[m - 1].1)
        } else {
            p
        }
    }
}

proof fn lemma_run_take<F>(s: BridgeView<F>, events: Seq<(Seq<char>, StatValueView<F>, UtcTime)>, m: int)
    requires
        0 <= m < events.len(),
    ensures
        run(s, events.take(m + 1)) == step(
            run(s, events.take(m)),
            events[m].0,
            events[m].1,
            events[m].2,
        ).0,
{
    assert(events.take(m + 1).drop_last() =~= events.take(m));
}

proof fn lemma_run_throttle<F>(s: BridgeView<F>, events: Seq<(Seq<char>, StatValueView<F>, UtcTime)>)
    ensures
        run(s, events).throttle_secs == s.throttle_secs,
    decreases events.len(),
{
    if events.len() > 0 {
        lemma_run_throttle(s, events.drop_last());
    }
}

/// After a publication of statistic `events[i].0` at event `i`, and until the
/// next one, its track holds the time of event `i` and the values received since.
proof fn lemma_pending<F>(
    s: BridgeView<F>,
    events: Seq<(Seq<char>, StatValueView<F>, UtcTime)>,
    i: int,
    m: int,
)
    requires
        0 <= i < m <= events.len(),
        actions_at(s, events, i).update is Some,
        forall|k: int|
            i < k < m && #[trigger] events[k].0 == events[i].0 ==> actions_at(s, events, k).update is None,
    ensures
        run(s, events.take(m)).tracks.contains_key(events[i].0),
        run(s, events.take(m)).tracks[events[i].0].last == Some(events[i].2),
        run(s, events.take(m)).tracks[events[i].0].queue == values_between(events, events[i].0, i, m),
    decreases m - i,
{
    let id = events[i].0;
    if m == i + 1 {
        lemma_run_take(s, events, i);
        assert(values_between(events, id, i, m) =~= Seq::<StatValueView<F>>::empty());
    } else {
        lemma_pending(s, events, i, m - 1);
        lemma_run_take(s, events, m - 1);
        let prev = run(s, events.take(m - 1));
        let e = events[m - 1];
        if e.0 == id {
            assert(actions_at(s, events, m - 1).update is None);
            law_values_kept_or_published(prev, id, e.1, e.2);
        } else {
            law_other_statistics_unchanged(prev, e.0, e.1, e.2, id);
        }
    }
}

/// Throttling over a run of the bridge: when events `i < j` of one statistic
/// both publish its state and no event between them does, event `j` was received
/// more than the throttle after event `i` (so no value received within the
/// throttle after a publication is published), and event `j` publishes what is
/// drawn from every value of that statistic received after event `i`.
pub proof fn law_publications_throttled<F>(
    s: BridgeView<F>,
    events: Seq<(Seq<char>, StatValueView<F>, UtcTime)>,
    i: int,
    j: int,
)
    requires
        0 <= i < j < events.len(),
        events[i].0 == events[j].0,
        actions_at(s, events, i).update is Some,
        actions_at(s, events, j).update is Some,
        forall|k: int|
            i < k < j && #[trigger] events[k].0 == events[i].0 ==> actions_at(s, events, k).update is None,
    ensures
        nanos_of(events[j].2) > nanos_of(events[i].2) + s.throttle_secs * 1_000_000_000,
        actions_at(s, events, j).update == Some(
            resolution(values_between(events, events[i].0, i, j).push(events[j].1)),
        ),
{
    lemma_pending(s, events, i, j);
    lemma_run_throttle(s, events.take(j));
    law_throttle(run(s, events.take(j)), events[j].0, events[j].1, events[j].2, events[i].2);
}

} // verus!
