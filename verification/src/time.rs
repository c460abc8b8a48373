//! Instants in UTC, and the timestamps of the controller's messages.

use vstd::prelude::*;

verus! {

/// An instant in UTC: whole seconds since the Unix epoch, and nanoseconds.
#[derive(Clone, Copy, Debug, PartialEq, Eq, Structural)]
pub struct UtcTime {
    pub secs: i64,
    pub nanos: u32,
}

/// The instant `t` as a number of nanoseconds since the epoch.
pub open spec fn nanos_of(t: UtcTime) -> int {
    t.secs * 1_000_000_000 + t.nanos
}

/// What `chrono::DateTime::parse_from_str(s, format)` gives, as an instant in UTC.
pub uninterp spec fn parsed_with_offset(s: Seq<char>, format: Seq<char>) -> Option<UtcTime>;

/// What `chrono::NaiveDateTime::parse_from_str(s, format)` gives, read as UTC.
pub uninterp spec fn parsed_naive(s: Seq<char>, format: Seq<char>) -> Option<UtcTime>;

/// `chrono::DateTime::parse_from_str`: a date and time with a UTC offset. Its result
/// is named `parsed_with_offset`; the parse itself is `chrono`'s.
#[verifier::external_body]
fn parse_with_offset(s: &str, format: &str) -> (r: Option<UtcTime>)
    ensures
        r == parsed_with_offset(s@, format@),
{
    match chrono::DateTime::parse_from_str(s, format) {
        Ok(dt) => Some(UtcTime { secs: dt.timestamp(), nanos: dt.timestamp_subsec_nanos() }),
        Err(_) => None,
    }
}

/// `chrono::NaiveDateTime::parse_from_str`: a date and time without offset, taken
/// as UTC (`and_utc`). Its result is named `parsed_naive`.
#[verifier::external_body]
fn parse_naive(s: &str, format: &str) -> (r: Option<UtcTime>)
    ensures
        r == parsed_naive(s@, format@),
{
    match chrono::NaiveDateTime::parse_from_str(s, format) {
        Ok(dt) => {
            let t = dt.and_utc();
            Some(UtcTime { secs: t.timestamp(), nanos: t.timestamp_subsec_nanos() })
        },
        Err(_) => None,
    }
}

/// The instant of a message timestamp, trying in turn: `%Y-%m-%d %H:%M:%S%z`; the
/// same with `+0000` appended (a timestamp without offset is UTC);
/// `%Y-%m-%dT%H:%M:%S%z`; and `%Y-%m-%dT%H:%M:%S` as UTC.
pub open spec fn timestamp_of(s: Seq<char>) -> Option<UtcTime> {
    let format = "%Y-%m-%d %H:%M:%S%z"@;
    if parsed_with_offset(s, format) is Some {
        parsed_with_offset(s, format)
    } else if parsed_with_offset(s + "+0000"@, format) is Some {
        parsed_with_offset(s + "+0000"@, format)
    } else if parsed_with_offset(s, "%Y-%m-%dT%H:%M:%S%z"@) is Some {
        parsed_with_offset(s, "%Y-%m-%dT%H:%M:%S%z"@)
    } else {
        parsed_naive(s, "%Y-%m-%dT%H:%M:%S"@)
    }
}

/// Reads a message timestamp; `None` when no format fits.
pub fn parse_timestamp(s: &str) -> (r: Option<UtcTime>)
    ensures
        r == timestamp_of(s@),
{
    let format = "%Y-%m-%d %H:%M:%S%z";
    if let Some(t) = parse_with_offset(s, format) {
        return Some(t);
    }
    let mut with_tz = s.to_owned();
    with_tz.append("+0000");
    if let Some(t) = parse_with_offset(with_tz.as_str(), format) {
        return Some(t);
    }
    if let Some(t) = parse_with_offset(s, "%Y-%m-%dT%H:%M:%S%z") {
        return Some(t);
    }
    parse_naive(s, "%Y-%m-%dT%H:%M:%S")
}

} // verus!
