//! Commands sent to the eSmart controller: the protocol's SET messages and the
//! the conversion of Home Assistant MQTT commands (`esmart/<entity>/set`) into them.

use vstd::prelude::*;
use crate::json::{json_quote, json_quoted, push_json_string};
use crate::text::{
    all_digits, chars_eq, chars_of, contains_char, decimal, ends_with, has_char, has_prefix,
    has_suffix, is_digit, lower_case, parse_unsigned, parse_unsigned_chars, push_decimal, starts_with, string_of,
    sub_chars, to_lower, to_upper, trim, trim_chars, upper_case,
};

verus! {

/// `"on"` or `"off"`.
pub open spec fn on_off(on: bool) -> Seq<char> {
    if on {
        "on"@
    } else {
        "off"@
    }
}

/// The headers object of a SET message sent by `jid` at `timestamp`, for a body of
/// `size` bytes (keys in the order `serde_json` writes them).
pub open spec fn headers_text(jid: Seq<char>, timestamp: Seq<char>, size: nat) -> Seq<char> {
    "{\"from\":"@ + json_quoted(jid) + ",\"method\":\"SET\",\"size\":"@ + decimal(size)
        + ",\"timestamp\":"@ + json_quoted(timestamp)
        + ",\"to\":\"master\",\"type\":\"data\",\"version\":\"1.19.0\"}"@
}

/// The length in bytes of the UTF-8 encoding of `s`, as `str::len` reports it.
pub open spec fn byte_len(s: Seq<char>) -> usize {
    vstd::utf8::encode_utf8(s).len() as usize
}

/// A complete SET message: the body and its headers; the size in the headers is the
/// length of the body in bytes.
pub open spec fn message_text(jid: Seq<char>, timestamp: Seq<char>, body: Seq<char>) -> Seq<
    char,
> {
    "{\"body\":"@ + body + ",\"headers\":"@ + headers_text(jid, timestamp, byte_len(body) as nat)
        + "}"@
}

/// A one-member JSON object whose value is the JSON text `value`.
pub open spec fn field_object(key: Seq<char>, value: Seq<char>) -> Seq<char> {
    "{"@ + json_quoted(key) + ":"@ + value + "}"@
}

/// The value of a node field.
#[derive(Clone, Debug)]
pub enum FieldValue {
    /// A string, written as a JSON string literal.
    Text(String),
    /// JSON text written as it is (such as a rendered number).
    Raw(String),
}

/// A field of a node to set, such as `"setpoint"`.
#[derive(Clone, Debug)]
pub struct NodeField {
    pub key: String,
    pub value: FieldValue,
}

pub open spec fn field_value_text(v: FieldValue) -> Seq<char> {
    match v {
        FieldValue::Text(s) => json_quoted(s@),
        FieldValue::Raw(s) => s@,
    }
}

/// The fields object `{"<key>":<value>}`.
pub open spec fn fields_text(f: NodeField) -> Seq<char> {
    field_object(f.key@, field_value_text(f.value))
}

/// The body that sets the fields `fields` (JSON text) of node `node_id`.
pub open spec fn node_body(node_id: u16, fields: Seq<char>) -> Seq<char> {
    "{\"nodes\":[{\"data\":"@ + fields + ",\"id\":"@ + decimal(node_id as nat) + "}]}"@
}

/// The body that switches holiday mode on or off.
pub open spec fn holiday_body(on: bool) -> Seq<char> {
    "{\"holiday_mode\":{\"onoff\":\""@ + on_off(on) + "\"}}"@
}

/// The body that switches freecooling on or off.
pub open spec fn freecooling_body(on: bool) -> Seq<char> {
    "{\"freecooling\":{\"onoff\":\""@ + on_off(on) + "\"}}"@
}

/// Two digits.
pub open spec fn two_digits(s: Seq<char>, i: int) -> bool {
    is_digit(s[i]) && is_digit(s[i + 1])
}

/// The shape of what `chrono` writes with `%Y-%m-%d %H:%M:%S%z` for an instant in
/// UTC from 1970 on: the year in four digits (past 9999, `+` and five or six
/// digits), then `-MM-DD HH:MM:SS+0000`.
pub open spec fn utc_timestamp_shape(s: Seq<char>) -> bool {
    let n = s.len() as int;
    let y = s.subrange(0, n - 20);
    let t = s.subrange(n - 20, n);
    &&& n >= 24
    &&& ((y.len() == 4 && all_digits(y)) || ((y.len() == 6 || y.len() == 7) && y[0] == '+'
        && all_digits(y.drop_first())))
    &&& t[0] == '-' && two_digits(t, 1) && t[3] == '-' && two_digits(t, 4)
    &&& t[6] == ' ' && two_digits(t, 7) && t[9] == ':' && two_digits(t, 10)
    &&& t[12] == ':' && two_digits(t, 13)
    &&& t.subrange(15, 20) == "+0000"@
}

/// The current time in UTC, as `chrono` formats `Utc::now()` with
/// `%Y-%m-%d %H:%M:%S%z`. Which instant it is depends on the clock; only the
/// shape of the text is stated (`Utc::now` is never before 1970, and `chrono`
/// goes no further than the year 262142).
#[verifier::external_body]
fn current_timestamp() -> (r: String)
    ensures
        utc_timestamp_shape(r@),
{
    chrono::Utc::now().format("%Y-%m-%d %H:%M:%S%z").to_string()
}

/// The headers of a SET message sent at `timestamp`.
pub fn make_headers_at(jid: &str, timestamp: &str, body_size: usize) -> (r: String)
    ensures
        r@ == headers_text(jid@, timestamp@, body_size as nat),
{
    let mut r = String::new();
    r.append("{\"from\":");
    push_json_string(&mut r, jid);
    r.append(",\"method\":\"SET\",\"size\":");
    push_decimal(&mut r, body_size as u64);
    r.append(",\"timestamp\":");
    push_json_string(&mut r, timestamp);
    r.append(",\"to\":\"master\",\"type\":\"data\",\"version\":\"1.19.0\"}");
    r
}

/// The headers of a SET message sent now.
fn make_headers(jid: &str, body_size: usize) -> (r: String)
    ensures
        exists|ts: Seq<char>| utc_timestamp_shape(ts) && r@ == headers_text(jid@, ts, body_size as nat),
{
    let ts = current_timestamp();
    make_headers_at(jid, ts.as_str(), body_size)
}

/// The SET message with `body`, sent at `timestamp`.
pub fn make_message_at(jid: &str, timestamp: &str, body: &str) -> (r: String)
    ensures
        r@ == message_text(jid@, timestamp@, body@),
{
    let size = body.len();
    let headers = make_headers_at(jid, timestamp, size);
    let mut r = String::new();
    r.append("{\"body\":");
    r.append(body);
    r.append(",\"headers\":");
    r.append(headers.as_str());
    r.append("}");
    r
}

/// The SET message with `body`, sent now.
fn make_message(jid: &str, body: &str) -> (r: String)
    ensures
        exists|ts: Seq<char>| utc_timestamp_shape(ts) && r@ == message_text(jid@, ts, body@),
{
    let ts = current_timestamp();
    make_message_at(jid, ts.as_str(), body)
}

fn push_field_object(out: &mut String, key: &str, value: &str)
    ensures
        final(out)@ == old(out)@ + field_object(key@, value@),
{
    out.append("{");
    push_json_string(out, key);
    out.append(":");
    out.append(value);
    out.append("}");
}

fn field_value_json(v: &FieldValue) -> (r: String)
    ensures
        r@ == field_value_text(*v),
{
    match v {
        FieldValue::Text(s) => json_quote(s.as_str()),
        FieldValue::Raw(s) => s.clone(),
    }
}

fn node_body_with(node_id: u16, key: &str, value: &str) -> (r: String)
    ensures
        r@ == node_body(node_id, field_object(key@, value@)),
{
    let mut r = String::new();
    r.append("{\"nodes\":[{\"data\":");
    push_field_object(&mut r, key, value);
    r.append(",\"id\":");
    push_decimal(&mut r, node_id as u64);
    r.append("}]}");
    r
}

/// The SET message, sent at `timestamp`, that sets `fields` of node `node_id`
/// (a room, an actuator or a fan).
pub fn set_node_at(jid: &str, timestamp: &str, node_id: u16, fields: &NodeField) -> (r: String)
    ensures
        r@ == message_text(jid@, timestamp@, node_body(node_id, fields_text(*fields))),
{
    let value = field_value_json(&fields.value);
    let body = node_body_with(node_id, fields.key.as_str(), value.as_str());
    make_message_at(jid, timestamp, body.as_str())
}

/// The SET message, sent now, that sets `fields` of node `node_id`.
pub fn set_node(jid: &str, node_id: u16, fields: &NodeField) -> (r: String)
    ensures
        exists|ts: Seq<char>|
            utc_timestamp_shape(ts) && r@ == message_text(jid@, ts, node_body(node_id, fields_text(*fields))),
{
    let value = field_value_json(&fields.value);
    let body = node_body_with(node_id, fields.key.as_str(), value.as_str());
    let r = make_message(jid, body.as_str());
    proof {
        let ts = choose|ts: Seq<char>| utc_timestamp_shape(ts) && r@ == message_text(jid@, ts, body@);
        assert(r@ == message_text(jid@, ts, node_body(node_id, fields_text(*fields))));
    }
    r
}

fn holiday_body_exec(on: bool) -> (r: String)
    ensures
        r@ == holiday_body(on),
{
    let mut r = String::new();
    r.append("{\"holiday_mode\":{\"onoff\":\"");
    r.append(if on {
        "on"
    } else {
        "off"
    });
    r.append("\"}}");
    r
}

fn freecooling_body_exec(on: bool) -> (r: String)
    ensures
        r@ == freecooling_body(on),
{
    let mut r = String::new();
    r.append("{\"freecooling\":{\"onoff\":\"");
    r.append(if on {
        "on"
    } else {
        "off"
    });
    r.append("\"}}");
    r
}

/// The SET message, sent at `timestamp`, that switches holiday mode on or off.
pub fn set_holiday_mode_at(jid: &str, timestamp: &str, on: bool) -> (r: String)
    ensures
        r@ == message_text(jid@, timestamp@, holiday_body(on)),
{
    let body = holiday_body_exec(on);
    make_message_at(jid, timestamp, body.as_str())
}

/// The SET message, sent now, that switches holiday mode on or off.
pub fn set_holiday_mode(jid: &str, on: bool) -> (r: String)
    ensures
        exists|ts: Seq<char>| utc_timestamp_shape(ts) && r@ == message_text(jid@, ts, holiday_body(on)),
{
    let body = holiday_body_exec(on);
    make_message(jid, body.as_str())
}

/// The SET message, sent at `timestamp`, that switches freecooling on or off.
pub fn set_freecooling_at(jid: &str, timestamp: &str, on: bool) -> (r: String)
    ensures
        r@ == message_text(jid@, timestamp@, freecooling_body(on)),
{
    let body = freecooling_body_exec(on);
    make_message_at(jid, timestamp, body.as_str())
}

/// The SET message, sent now, that switches freecooling on or off.
pub fn set_freecooling(jid: &str, on: bool) -> (r: String)
    ensures
        exists|ts: Seq<char>| utc_timestamp_shape(ts) && r@ == message_text(jid@, ts, freecooling_body(on)),
{
    let body = freecooling_body_exec(on);
    make_message(jid, body.as_str())
}


/// A command to send to the eSmart controller over XMPP.
#[derive(Clone, Debug)]
pub struct ESmartCommand {
    pub xmpp_payload: String,
    pub description: String,
}

/// A fan's preset mode.
#[derive(Clone, Copy, Debug, PartialEq, Eq, Structural)]
pub enum FanMode {
    Auto,
    Manual,
}

/// What a command asks for, as contracts speak of it.
pub enum Command {
    HolidayMode(bool),
    Freecooling(bool),
    RoomSetpoint(u16),
    RoomMode(u16, bool),
    ActuatorPosition(u16),
    ActuatorTilt(u16),
    FanSpeed(u16, Seq<char>),
    FanMode(u16, FanMode),
    FanOnOff(u16, bool),
}

/// What an MQTT command asks for. The numeric value of a setpoint, position or
/// tilt is not part of it: see [`PayloadNumber`].
#[derive(Clone, Debug)]
pub enum CommandRequest {
    HolidayMode(bool),
    Freecooling(bool),
    RoomSetpoint(u16),
    RoomMode(u16, bool),
    ActuatorPosition(u16),
    ActuatorTilt(u16),
    FanSpeed(u16, String),
    FanMode(u16, FanMode),
    FanOnOff(u16, bool),
}

impl View for CommandRequest {
    type V = Command;

    open spec fn view(&self) -> Command {
        match self {
            CommandRequest::HolidayMode(on) => Command::HolidayMode(*on),
            CommandRequest::Freecooling(on) => Command::Freecooling(*on),
            CommandRequest::RoomSetpoint(id) => Command::RoomSetpoint(*id),
            CommandRequest::RoomMode(id, on) => Command::RoomMode(*id, *on),
            CommandRequest::ActuatorPosition(id) => Command::ActuatorPosition(*id),
            CommandRequest::ActuatorTilt(id) => Command::ActuatorTilt(*id),
            CommandRequest::FanSpeed(id, s) => Command::FanSpeed(*id, s@),
            CommandRequest::FanMode(id, m) => Command::FanMode(*id, *m),
            CommandRequest::FanOnOff(id, on) => Command::FanOnOff(*id, *on),
        }
    }
}

/// A number as it is to appear in a command: its JSON text, and the text shown in
/// the command's description.
#[derive(Clone, Debug)]
pub struct NumberText {
    pub json: String,
    pub display: String,
}

/// The number read from a command's payload (the payload without surrounding
/// whitespace, read as a 32-bit float): as it is, and clamped to 0..=100.
#[derive(Clone, Debug)]
pub struct PayloadNumber {
    pub raw: NumberText,
    pub clamped: NumberText,
}

/// `s` without the prefix `p`, if it has it.
pub open spec fn strip_prefix(s: Seq<char>, p: Seq<char>) -> Option<Seq<char>> {
    if has_prefix(s, p) {
        Some(s.subrange(p.len() as int, s.len() as int))
    } else {
        None
    }
}

/// `s` without the suffix `p`, if it has it.
pub open spec fn strip_suffix(s: Seq<char>, p: Seq<char>) -> Option<Seq<char>> {
    if has_suffix(s, p) {
        Some(s.subrange(0, s.len() - p.len()))
    } else {
        None
    }
}

/// The entity of a command topic `esmart/<entity>/set`, where the entity holds no
/// `/` (the topic splits at `/` into exactly these three parts).
pub open spec fn topic_entity(topic: Seq<char>) -> Option<Seq<char>> {
    match strip_prefix(topic, "esmart/"@) {
        Some(rest) => match strip_suffix(rest, "/set"@) {
            Some(e) => if has_char(e, '/') {
                None
            } else {
                Some(e)
            },
            None => None,
        },
        None => None,
    }
}

/// A node id, as `str::parse::<u16>` reads it.
pub open spec fn parse_node_id(s: Seq<char>) -> Option<u16> {
    match parse_unsigned(s, 65535) {
        Some(v) => Some(v as u16),
        None => None,
    }
}

/// An upper-cased switch word means "on" when it is `ON`, `1` or `TRUE`.
pub open spec fn on_upper(u: Seq<char>) -> bool {
    u == "ON"@ || u == "1"@ || u == "TRUE"@
}

/// A switch payload means "on" when, trimmed and upper-cased, it is `ON`, `1` or `TRUE`.
pub open spec fn switch_on(payload: Seq<char>) -> bool {
    on_upper(upper_case(trim(payload)))
}

/// A lower-cased heating mode word: `heat` or `on` (on), `off` (off).
pub open spec fn heating_lower(m: Seq<char>) -> Option<bool> {
    if m == "heat"@ || m == "on"@ {
        Some(true)
    } else if m == "off"@ {
        Some(false)
    } else {
        None
    }
}

/// A room's heating mode: `heat` or `on` (on), `off` (off), in any case.
pub open spec fn room_mode(payload: Seq<char>) -> Option<bool> {
    heating_lower(lower_case(trim(payload)))
}

/// A lower-cased fan preset word: `auto` or `manual`.
pub open spec fn preset_lower(m: Seq<char>) -> Option<FanMode> {
    if m == "auto"@ {
        Some(FanMode::Auto)
    } else if m == "manual"@ {
        Some(FanMode::Manual)
    } else {
        None
    }
}

/// A fan's preset mode: `auto` or `manual`, in any case.
pub open spec fn fan_mode(payload: Seq<char>) -> Option<FanMode> {
    preset_lower(lower_case(trim(payload)))
}

pub open spec fn fan_mode_word(m: FanMode) -> Seq<char> {
    match m {
        FanMode::Auto => "auto"@,
        FanMode::Manual => "manual"@,
    }
}

/// A fan speed: the trimmed payload if it ends with `%`; otherwise a number in
/// 0..=255, capped at 100 and followed by `%`.
pub open spec fn fan_speed(payload: Seq<char>) -> Option<Seq<char>> {
    let t = trim(payload);
    if has_suffix(t, "%"@) {
        Some(t)
    } else {
        match parse_unsigned(t, 255) {
            Some(v) => Some(decimal(if v <= 100 { v } else { 100 }) + "%"@),
            None => None,
        }
    }
}

/// The speed that switching a fan on or off sets.
pub open spec fn fan_switch_speed(on: bool) -> Seq<char> {
    if on {
        "50%"@
    } else {
        "0%"@
    }
}

pub open spec fn room_command(rest: Seq<char>, payload: Seq<char>, has_number: bool) -> Option<
    Command,
> {
    match strip_suffix(rest, "_setpoint"@) {
        Some(id) => match parse_node_id(id) {
            Some(id) => if has_number {
                Some(Command::RoomSetpoint(id))
            } else {
                None
            },
            None => None,
        },
        None => match strip_suffix(rest, "_mode"@) {
            Some(id) => match (parse_node_id(id), room_mode(payload)) {
                (Some(id), Some(on)) => Some(Command::RoomMode(id, on)),
                _ => None,
            },
            None => None,
        },
    }
}

pub open spec fn actuator_command(rest: Seq<char>, has_number: bool) -> Option<Command> {
    match strip_suffix(rest, "_position"@) {
        Some(id) => match parse_node_id(id) {
            Some(id) => if has_number {
                Some(Command::ActuatorPosition(id))
            } else {
                None
            },
            None => None,
        },
        None => match strip_suffix(rest, "_tilt"@) {
            Some(id) => match parse_node_id(id) {
                Some(id) => if has_number {
                    Some(Command::ActuatorTilt(id))
                } else {
                    None
                },
                None => None,
            },
            None => None,
        },
    }
}

pub open spec fn fan_command(rest: Seq<char>, payload: Seq<char>) -> Option<Command> {
    match strip_suffix(rest, "_speed"@) {
        Some(id) => match (parse_node_id(id), fan_speed(payload)) {
            (Some(id), Some(speed)) => Some(Command::FanSpeed(id, speed)),
            _ => None,
        },
        None => match strip_suffix(rest, "_mode"@) {
            Some(id) => match (parse_node_id(id), fan_mode(payload)) {
                (Some(id), Some(m)) => Some(Command::FanMode(id, m)),
                _ => None,
            },
            None => match strip_suffix(rest, "_onoff"@) {
                Some(id) => match parse_node_id(id) {
                    Some(id) => Some(Command::FanOnOff(id, switch_on(payload))),
                    None => None,
                },
                None => None,
            },
        },
    }
}

/// What the command with `topic` and `payload` asks for; `has_number` tells
/// whether the trimmed payload reads as a number. The prefixes `room_`,
/// `actuator_` and `fan_` exclude each other, and so do the suffixes tried within
/// each, so the first that matches decides.
pub open spec fn command_of(topic: Seq<char>, payload: Seq<char>, has_number: bool) -> Option<
    Command,
> {
    match topic_entity(topic) {
        None => None,
        Some(e) => if e == "holiday_mode"@ {
            Some(Command::HolidayMode(switch_on(payload)))
        } else if e == "freecooling"@ {
            Some(Command::Freecooling(switch_on(payload)))
        } else if has_prefix(e, "room_"@) {
            room_command(e.subrange("room_"@.len() as int, e.len() as int), payload, has_number)
        } else if has_prefix(e, "actuator_"@) {
            actuator_command(e.subrange("actuator_"@.len() as int, e.len() as int), has_number)
        } else if has_prefix(e, "fan_"@) {
            fan_command(e.subrange("fan_"@.len() as int, e.len() as int), payload)
        } else {
            None
        },
    }
}

/// The message body that carries out `c`; `n` is the number read from the payload.
pub open spec fn command_body(c: Command, n: PayloadNumber) -> Seq<char> {
    match c {
        Command::HolidayMode(on) => holiday_body(on),
        Command::Freecooling(on) => freecooling_body(on),
        Command::RoomSetpoint(id) => node_body(id, field_object("setpoint"@, n.raw.json@)),
        Command::RoomMode(id, on) => node_body(
            id,
            field_object("deviceOnOff"@, json_quoted(on_off(on))),
        ),
        Command::ActuatorPosition(id) => node_body(id, field_object("position"@, n.clamped.json@)),
        Command::ActuatorTilt(id) => node_body(id, field_object("orientation"@, n.clamped.json@)),
        Command::FanSpeed(id, speed) => node_body(id, field_object("speed"@, json_quoted(speed))),
        Command::FanMode(id, m) => node_body(id, field_object("mode"@, json_quoted(fan_mode_word(m)))),
        Command::FanOnOff(id, on) => node_body(
            id,
            field_object("speed"@, json_quoted(fan_switch_speed(on))),
        ),
    }
}

/// The description of `c`; `n` is the number read from the payload.
pub open spec fn command_description(c: Command, n: PayloadNumber) -> Seq<char> {
    match c {
        Command::HolidayMode(on) => "Set holiday mode to "@ + on_off(on),
        Command::Freecooling(on) => "Set freecooling to "@ + on_off(on),
        Command::RoomSetpoint(id) => "Set room "@ + decimal(id as nat) + " setpoint to "@
            + n.raw.display@ + "°C"@,
        Command::RoomMode(id, on) => "Set room "@ + decimal(id as nat) + " heating to "@ + on_off(on),
        Command::ActuatorPosition(id) => "Set actuator "@ + decimal(id as nat) + " position to "@
            + n.clamped.display@ + "%"@,
        Command::ActuatorTilt(id) => "Set actuator "@ + decimal(id as nat) + " orientation to "@
            + n.clamped.display@ + "%"@,
        Command::FanSpeed(id, speed) => "Set fan "@ + decimal(id as nat) + " speed to "@ + speed,
        Command::FanMode(id, m) => "Set fan "@ + decimal(id as nat) + " mode to "@ + fan_mode_word(m),
        Command::FanOnOff(id, on) => "Set fan "@ + decimal(id as nat) + " to "@ + on_off(on)
            + " (speed "@ + fan_switch_speed(on) + ")"@,
    }
}

/// `c` needs the number read from the payload.
pub open spec fn needs_number(c: Command) -> bool {
    match c {
        Command::RoomSetpoint(_) | Command::ActuatorPosition(_) | Command::ActuatorTilt(_) => true,
        _ => false,
    }
}

fn strip_prefix_chars(s: &[char], p: &str) -> (r: Option<Vec<char>>)
    ensures
        match r {
            Some(v) => strip_prefix(s@, p@) == Some(v@),
            None => strip_prefix(s@, p@) is None,
        },
{
    let pc = chars_of(p);
    if starts_with(s, &pc) {
        Some(sub_chars(s, pc.len(), s.len()))
    } else {
        None
    }
}

fn strip_suffix_chars(s: &[char], p: &str) -> (r: Option<Vec<char>>)
    ensures
        match r {
            Some(v) => strip_suffix(s@, p@) == Some(v@),
            None => strip_suffix(s@, p@) is None,
        },
{
    let pc = chars_of(p);
    if ends_with(s, &pc) {
        Some(sub_chars(s, 0, s.len() - pc.len()))
    } else {
        None
    }
}

fn is_word(s: &[char], w: &str) -> (r: bool)
    ensures
        r == (s@ == w@),
{
    let wc = chars_of(w);
    chars_eq(s, &wc)
}

fn entity_of(topic: &[char]) -> (r: Option<Vec<char>>)
    ensures
        match r {
            Some(v) => topic_entity(topic@) == Some(v@),
            None => topic_entity(topic@) is None,
        },
{
    let rest = match strip_prefix_chars(topic, "esmart/") {
        Some(rest) => rest,
        None => return None,
    };
    let e = match strip_suffix_chars(&rest, "/set") {
        Some(e) => e,
        None => return None,
    };
    if contains_char(&e, '/') {
        None
    } else {
        Some(e)
    }
}

fn node_id_of(s: &[char]) -> (r: Option<u16>)
    ensures
        r == parse_node_id(s@),
{
    match parse_unsigned_chars(s, 65535) {
        Some(v) => Some(v as u16),
        None => None,
    }
}

/// Whether the upper-cased switch word `u` means "on".
pub fn switch_on_upper(u: &str) -> (r: bool)
    ensures
        r == on_upper(u@),
{
    let c = chars_of(u);
    is_word(&c, "ON") || is_word(&c, "1") || is_word(&c, "TRUE")
}

/// The heating mode that the lower-cased word `m` names, if any.
pub fn room_mode_lower(m: &str) -> (r: Option<bool>)
    ensures
        r == heating_lower(m@),
{
    let c = chars_of(m);
    if is_word(&c, "heat") || is_word(&c, "on") {
        Some(true)
    } else if is_word(&c, "off") {
        Some(false)
    } else {
        None
    }
}

/// The fan preset that the lower-cased word `m` names, if any.
pub fn fan_mode_lower(m: &str) -> (r: Option<FanMode>)
    ensures
        r == preset_lower(m@),
{
    let c = chars_of(m);
    if is_word(&c, "auto") {
        Some(FanMode::Auto)
    } else if is_word(&c, "manual") {
        Some(FanMode::Manual)
    } else {
        None
    }
}

fn switch_on_chars(payload: &[char]) -> (r: bool)
    ensures
        r == switch_on(payload@),
{
    let t = string_of(&trim_chars(payload));
    switch_on_upper(to_upper(t.as_str()).as_str())
}

fn room_mode_chars(payload: &[char]) -> (r: Option<bool>)
    ensures
        r == room_mode(payload@),
{
    let t = string_of(&trim_chars(payload));
    room_mode_lower(to_lower(t.as_str()).as_str())
}

fn fan_mode_chars(payload: &[char]) -> (r: Option<FanMode>)
    ensures
        r == fan_mode(payload@),
{
    let t = string_of(&trim_chars(payload));
    fan_mode_lower(to_lower(t.as_str()).as_str())
}

fn fan_speed_chars(payload: &[char]) -> (r: Option<String>)
    ensures
        match r {
            Some(s) => fan_speed(payload@) == Some(s@),
            None => fan_speed(payload@) is None,
        },
{
    let t = trim_chars(payload);
    let pct = chars_of("%");
    if ends_with(&t, &pct) {
        Some(string_of(&t))
    } else {
        match parse_unsigned_chars(&t, 255) {
            Some(v) => {
                let capped: u64 = if v <= 100 {
                    v
                } else {
                    100
                };
                let mut s = String::new();
                push_decimal(&mut s, capped);
                s.append("%");
                Some(s)
            },
            None => None,
        }
    }
}

fn room_request(rest: &[char], payload: &[char], has_number: bool) -> (r: Option<CommandRequest>)
    ensures
        match r {
            Some(q) => room_command(rest@, payload@, has_number) == Some(q@),
            None => room_command(rest@, payload@, has_number) is None,
        },
{
    match strip_suffix_chars(rest, "_setpoint") {
        Some(id) => match node_id_of(&id) {
            Some(id) => if has_number {
                Some(CommandRequest::RoomSetpoint(id))
            } else {
                None
            },
            None => None,
        },
        None => match strip_suffix_chars(rest, "_mode") {
            Some(id) => match (node_id_of(&id), room_mode_chars(payload)) {
                (Some(id), Some(on)) => Some(CommandRequest::RoomMode(id, on)),
                _ => None,
            },
            None => None,
        },
    }
}

fn actuator_request(rest: &[char], has_number: bool) -> (r: Option<CommandRequest>)
    ensures
        match r {
            Some(q) => actuator_command(rest@, has_number) == Some(q@),
            None => actuator_command(rest@, has_number) is None,
        },
{
    match strip_suffix_chars(rest, "_position") {
        Some(id) => match node_id_of(&id) {
            Some(id) => if has_number {
                Some(CommandRequest::ActuatorPosition(id))
            } else {
                None
            },
            None => None,
        },
        None => match strip_suffix_chars(rest, "_tilt") {
            Some(id) => match node_id_of(&id) {
                Some(id) => if has_number {
                    Some(CommandRequest::ActuatorTilt(id))
                } else {
                    None
                },
                None => None,
            },
            None => None,
        },
    }
}

fn fan_request(rest: &[char], payload: &[char]) -> (r: Option<CommandRequest>)
    ensures
        match r {
            Some(q) => fan_command(rest@, payload@) == Some(q@),
            None => fan_command(rest@, payload@) is None,
        },
{
    match strip_suffix_chars(rest, "_speed") {
        Some(id) => match (node_id_of(&id), fan_speed_chars(payload)) {
            (Some(id), Some(speed)) => Some(CommandRequest::FanSpeed(id, speed)),
            _ => None,
        },
        None => match strip_suffix_chars(rest, "_mode") {
            Some(id) => match (node_id_of(&id), fan_mode_chars(payload)) {
                (Some(id), Some(m)) => Some(CommandRequest::FanMode(id, m)),
                _ => None,
            },
            None => match strip_suffix_chars(rest, "_onoff") {
                Some(id) => match node_id_of(&id) {
                    Some(id) => Some(CommandRequest::FanOnOff(id, switch_on_chars(payload))),
                    None => None,
                },
                None => None,
            },
        },
    }
}

/// What the MQTT command with `topic` and `payload` asks for, if it is one the
/// bridge knows; `has_number` tells whether the trimmed payload reads as a number.
pub fn classify_mqtt_command(topic: &str, payload: &str, has_number: bool) -> (r: Option<
    CommandRequest,
>)
    ensures
        match r {
            Some(q) => command_of(topic@, payload@, has_number) == Some(q@),
            None => command_of(topic@, payload@, has_number) is None,
        },
{
    let t = chars_of(topic);
    let e = match entity_of(&t) {
        Some(e) => e,
        None => return None,
    };
    let p = chars_of(payload);
    if is_word(&e, "holiday_mode") {
        return Some(CommandRequest::HolidayMode(switch_on_chars(&p)));
    }
    if is_word(&e, "freecooling") {
        return Some(CommandRequest::Freecooling(switch_on_chars(&p)));
    }
    if let Some(rest) = strip_prefix_chars(&e, "room_") {
        return room_request(&rest, &p, has_number);
    }
    if let Some(rest) = strip_prefix_chars(&e, "actuator_") {
        return actuator_request(&rest, has_number);
    }
    if let Some(rest) = strip_prefix_chars(&e, "fan_") {
        return fan_request(&rest, &p);
    }
    None
}


/// The SET message and the description for the MQTT command with `topic` and
/// `payload`, sent by `jid` at `timestamp`; `number` is the trimmed payload read as
/// a number, if it reads as one.
pub open spec fn command_outcome(
    jid: Seq<char>,
    timestamp: Seq<char>,
    topic: Seq<char>,
    payload: Seq<char>,
    number: Option<PayloadNumber>,
) -> Option<(Seq<char>, Seq<char>)> {
    match command_of(topic, payload, number is Some) {
        Some(c) => Some(
            (
                message_text(jid, timestamp, command_body(c, number->0)),
                command_description(c, number->0),
            ),
        ),
        None => None,
    }
}

/// `r` is the command with the message and description of `outcome`, or `None`
/// when there is none.
pub open spec fn carries_outcome(
    r: Option<ESmartCommand>,
    outcome: Option<(Seq<char>, Seq<char>)>,
) -> bool {
    match outcome {
        None => r is None,
        Some((p, d)) => r matches Some(cmd) && cmd.xmpp_payload@ == p && cmd.description@ == d,
    }
}

fn on_off_str(on: bool) -> (r: &'static str)
    ensures
        r@ == on_off(on),
{
    if on {
        "on"
    } else {
        "off"
    }
}

fn fan_mode_str(m: FanMode) -> (r: &'static str)
    ensures
        r@ == fan_mode_word(m),
{
    match m {
        FanMode::Auto => "auto",
        FanMode::Manual => "manual",
    }
}

fn fan_switch_speed_str(on: bool) -> (r: &'static str)
    ensures
        r@ == fan_switch_speed(on),
{
    if on {
        "50%"
    } else {
        "0%"
    }
}

fn command_body_exec(q: &CommandRequest, number: &Option<PayloadNumber>) -> (r: String)
    requires
        needs_number(q@) ==> number is Some,
    ensures
        r@ == command_body(q@, number->0),
{
    match q {
        CommandRequest::HolidayMode(on) => holiday_body_exec(*on),
        CommandRequest::Freecooling(on) => freecooling_body_exec(*on),
        CommandRequest::RoomSetpoint(id) => {
            let n = number.as_ref().unwrap();
            node_body_with(*id, "setpoint", n.raw.json.as_str())
        },
        CommandRequest::RoomMode(id, on) => {
            let v = json_quote(on_off_str(*on));
            node_body_with(*id, "deviceOnOff", v.as_str())
        },
        CommandRequest::ActuatorPosition(id) => {
            let n = number.as_ref().unwrap();
            node_body_with(*id, "position", n.clamped.json.as_str())
        },
        CommandRequest::ActuatorTilt(id) => {
            let n = number.as_ref().unwrap();
            node_body_with(*id, "orientation", n.clamped.json.as_str())
        },
        CommandRequest::FanSpeed(id, speed) => {
            let v = json_quote(speed.as_str());
            node_body_with(*id, "speed", v.as_str())
        },
        CommandRequest::FanMode(id, m) => {
            let v = json_quote(fan_mode_str(*m));
            node_body_with(*id, "mode", v.as_str())
        },
        CommandRequest::FanOnOff(id, on) => {
            let v = json_quote(fan_switch_speed_str(*on));
            node_body_with(*id, "speed", v.as_str())
        },
    }
}

fn command_description_exec(q: &CommandRequest, number: &Option<PayloadNumber>) -> (r: String)
    requires
        needs_number(q@) ==> number is Some,
    ensures
        r@ == command_description(q@, number->0),
{
    let mut r = String::new();
    match q {
        CommandRequest::HolidayMode(on) => {
            r.append("Set holiday mode to ");
            r.append(on_off_str(*on));
        },
        CommandRequest::Freecooling(on) => {
            r.append("Set freecooling to ");
            r.append(on_off_str(*on));
        },
        CommandRequest::RoomSetpoint(id) => {
            let n = number.as_ref().unwrap();
            r.append("Set room ");
            push_decimal(&mut r, *id as u64);
            r.append(" setpoint to ");
            r.append(n.raw.display.as_str());
            r.append("°C");
        },
        CommandRequest::RoomMode(id, on) => {
            r.append("Set room ");
            push_decimal(&mut r, *id as u64);
            r.append(" heating to ");
            r.append(on_off_str(*on));
        },
        CommandRequest::ActuatorPosition(id) => {
            let n = number.as_ref().unwrap();
            r.append("Set actuator ");
            push_decimal(&mut r, *id as u64);
            r.append(" position to ");
            r.append(n.clamped.display.as_str());
            r.append("%");
        },
        CommandRequest::ActuatorTilt(id) => {
            let n = number.as_ref().unwrap();
            r.append("Set actuator ");
            push_decimal(&mut r, *id as u64);
            r.append(" orientation to ");
            r.append(n.clamped.display.as_str());
            r.append("%");
        },
        CommandRequest::FanSpeed(id, speed) => {
            r.append("Set fan ");
            push_decimal(&mut r, *id as u64);
            r.append(" speed to ");
            r.append(speed.as_str());
        },
        CommandRequest::FanMode(id, m) => {
            r.append("Set fan ");
            push_decimal(&mut r, *id as u64);
            r.append(" mode to ");
            r.append(fan_mode_str(*m));
        },
        CommandRequest::FanOnOff(id, on) => {
            r.append("Set fan ");
            push_decimal(&mut r, *id as u64);
            r.append(" to ");
            r.append(on_off_str(*on));
            r.append(" (speed ");
            r.append(fan_switch_speed_str(*on));
            r.append(")");
        },
    }
    r
}

/// Turns the MQTT command with `topic` (`esmart/<entity>/set`) and `payload`
/// into the command for the eSmart controller, sent by `jid` at `timestamp`;
/// `None` when the command is not recognised. `number` is the payload without
/// surrounding whitespace read as a 32-bit float, if it reads as one (it matters to
/// setpoints, positions and tilts).
pub fn parse_mqtt_command_at(
    jid: &str,
    timestamp: &str,
    topic: &str,
    payload: &str,
    number: &Option<PayloadNumber>,
) -> (r: Option<ESmartCommand>)
    ensures
        carries_outcome(r, command_outcome(jid@, timestamp@, topic@, payload@, *number)),
{
    let q = match classify_mqtt_command(topic, payload, number.is_some()) {
        Some(q) => q,
        None => return None,
    };
    let body = command_body_exec(&q, number);
    let description = command_description_exec(&q, number);
    let xmpp_payload = make_message_at(jid, timestamp, body.as_str());
    Some(ESmartCommand { xmpp_payload, description })
}

/// Turns the MQTT command with `topic` and `payload` into the command for
/// the eSmart controller, sent by `jid` now; `None` when it is not recognised.
pub fn parse_mqtt_command(jid: &str, topic: &str, payload: &str, number: &Option<PayloadNumber>) -> (r:
    Option<ESmartCommand>)
    ensures
        exists|ts: Seq<char>|
            utc_timestamp_shape(ts) && carries_outcome(
                r,
                #[trigger] command_outcome(jid@, ts, topic@, payload@, *number),
            ),
{
    let ts = current_timestamp();
    parse_mqtt_command_at(jid, ts.as_str(), topic, payload, number)
}

} // verus!
