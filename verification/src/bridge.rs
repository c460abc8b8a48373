//! The decisions of the MQTT side of the bridge: which control entities and
//! sensors to announce, and when to publish the state of a statistic (values
//! received between two publications are gathered and published together).

use vstd::prelude::*;
use crate::commands::{parse_node_id, strip_prefix};
use crate::discovery::{climate_discovery, cover_discovery, fan_discovery, switch_discovery, Publication};
use crate::stats::{StatValue, StatValueView};
use crate::text::{chars_eq, chars_of, parse_unsigned_chars, starts_with, sub_chars};
use crate::time::{nanos_of, UtcTime};

verus! {

/// The smallest whole second `chrono` represents (January 1, 262143 BCE).
pub const MIN_TIMESTAMP_SECS: i64 = -8_334_601_315_200;

/// The largest whole second `chrono` represents (December 31, 262142 CE).
pub const MAX_TIMESTAMP_SECS: i64 = 8_210_266_876_799;

/// The largest number of seconds `chrono::TimeDelta::seconds` accepts.
pub const MAX_DELTA_SECS: i64 = 9_223_372_036_854_775;

/// `t` is an instant that `chrono` represents, without a leap second.
pub open spec fn representable(t: UtcTime) -> bool {
    MIN_TIMESTAMP_SECS <= t.secs <= MAX_TIMESTAMP_SECS && t.nanos < 1_000_000_000
}

/// Whether `t` is an instant that `chrono` represents, without a leap second.
pub fn representable_time(t: UtcTime) -> (r: bool)
    ensures
        r == representable(t),
{
    MIN_TIMESTAMP_SECS <= t.secs && t.secs <= MAX_TIMESTAMP_SECS && t.nanos < 1_000_000_000
}

/// A control entity announced to Home Assistant.
#[derive(Clone, Copy, Debug, PartialEq, Eq, Structural)]
pub enum ControlEntity {
    Climate(u16),
    Cover(u16),
    Fan(u16),
    HolidayModeSwitch,
    FreecoolingSwitch,
}

/// The node id after `prefix` in a statistic id.
pub open spec fn prefixed_node(id: Seq<char>, prefix: Seq<char>) -> Option<u16> {
    match strip_prefix(id, prefix) {
        Some(rest) => parse_node_id(rest),
        None => None,
    }
}

/// The control entity that the statistic `id` reveals: a room's temperature
/// reveals its climate entity, an actuator's position its cover, a fan's power
/// its fan, and the holiday-mode and freecooling states their switches.
pub open spec fn control_entity_of(id: Seq<char>) -> Option<ControlEntity> {
    match prefixed_node(id, "room_temperature_"@) {
        Some(n) => Some(ControlEntity::Climate(n)),
        None => match prefixed_node(id, "actuator_position_"@) {
            Some(n) => Some(ControlEntity::Cover(n)),
            None => match prefixed_node(id, "fan_power_"@) {
                Some(n) => Some(ControlEntity::Fan(n)),
                None => if id == "holiday_mode"@ {
                    Some(ControlEntity::HolidayModeSwitch)
                } else if id == "freecooling"@ {
                    Some(ControlEntity::FreecoolingSwitch)
                } else {
                    None
                },
            },
        },
    }
}

fn prefixed_node_exec(id: &[char], prefix: &str) -> (r: Option<u16>)
    ensures
        r == prefixed_node(id@, prefix@),
{
    let p = chars_of(prefix);
    if starts_with(id, &p) {
        let rest = sub_chars(id, p.len(), id.len());
        match parse_unsigned_chars(&rest, 65535) {
            Some(v) => Some(v as u16),
            None => None,
        }
    } else {
        None
    }
}

/// The control entity that the statistic `id` reveals, if any.
pub fn control_entity(id: &str) -> (r: Option<ControlEntity>)
    ensures
        r == control_entity_of(id@),
{
    let c = chars_of(id);
    if let Some(n) = prefixed_node_exec(&c, "room_temperature_") {
        return Some(ControlEntity::Climate(n));
    }
    if let Some(n) = prefixed_node_exec(&c, "actuator_position_") {
        return Some(ControlEntity::Cover(n));
    }
    if let Some(n) = prefixed_node_exec(&c, "fan_power_") {
        return Some(ControlEntity::Fan(n));
    }
    if chars_eq(&c, &chars_of("holiday_mode")) {
        return Some(ControlEntity::HolidayModeSwitch);
    }
    if chars_eq(&c, &chars_of("freecooling")) {
        return Some(ControlEntity::FreecoolingSwitch);
    }
    None
}

/// The discovery message of a control entity.
pub fn control_discovery(e: ControlEntity) -> (r: Publication)
    ensures
        (r.topic@, r.payload@) == match e {
            ControlEntity::Climate(n) => crate::discovery::climate_discovery_spec(n),
            ControlEntity::Cover(n) => crate::discovery::cover_discovery_spec(n),
            ControlEntity::Fan(n) => crate::discovery::fan_discovery_spec(n),
            ControlEntity::HolidayModeSwitch => crate::discovery::switch_discovery_spec(
                "holiday_mode"@,
                "Holiday Mode"@,
                "mdi:beach"@,
                "holiday_mode"@,
            ),
            ControlEntity::FreecoolingSwitch => crate::discovery::switch_discovery_spec(
                "freecooling"@,
                "Freecooling"@,
                "mdi:snowflake"@,
                "freecooling"@,
            ),
        },
        r.retain,
{
    match e {
        ControlEntity::Climate(n) => climate_discovery(n),
        ControlEntity::Cover(n) => cover_discovery(n),
        ControlEntity::Fan(n) => fan_discovery(n),
        ControlEntity::HolidayModeSwitch => switch_discovery(
            "holiday_mode",
            "Holiday Mode",
            "mdi:beach",
            "holiday_mode",
        ),
        ControlEntity::FreecoolingSwitch => switch_discovery(
            "freecooling",
            "Freecooling",
            "mdi:snowflake",
            "freecooling",
        ),
    }
}


/// What is pending for one statistic: the values received since its last
/// publication, the time of that publication, and whether the control entity it
/// reveals has been announced.
struct Track<F> {
    id: String,
    queue: Vec<StatValue<F>>,
    last: Option<UtcTime>,
    control: bool,
}

/// What a [`Track`] holds.
pub struct TrackView<F> {
    pub queue: Seq<StatValueView<F>>,
    pub last: Option<UtcTime>,
    pub control: bool,
}

pub open spec fn values_view<F>(q: Seq<StatValue<F>>) -> Seq<StatValueView<F>> {
    q.map_values(|v: StatValue<F>| v@)
}

impl<F> View for Track<F> {
    type V = TrackView<F>;

    closed spec fn view(&self) -> TrackView<F> {
        TrackView { queue: values_view(self.queue@), last: self.last, control: self.control }
    }
}

/// The tracks by statistic id.
spec fn tracks_map<F>(v: Seq<Track<F>>) -> Map<Seq<char>, TrackView<F>>
    decreases v.len(),
{
    if v.len() == 0 {
        Map::empty()
    } else {
        tracks_map(v.drop_last()).insert(v.last().id@, v.last()@)
    }
}

spec fn unique_ids<F>(v: Seq<Track<F>>) -> bool {
    forall|i: int, j: int| 0 <= i < j < v.len() ==> v[i].id@ != v[j].id@
}

/// What to publish, drawn from the values gathered for a statistic: their mean
/// when the first is numeric (texts count as 0, switches as 1 or 0), otherwise
/// the last of them.
#[derive(Clone, Debug)]
pub enum Resolution<F> {
    Mean(Vec<StatValue<F>>),
    Last(StatValue<F>),
}

pub enum ResolutionView<F> {
    Mean(Seq<StatValueView<F>>),
    Last(StatValueView<F>),
}

impl<F> View for Resolution<F> {
    type V = ResolutionView<F>;

    open spec fn view(&self) -> ResolutionView<F> {
        match self {
            Resolution::Mean(q) => ResolutionView::Mean(values_view(q@)),
            Resolution::Last(v) => ResolutionView::Last(v@),
        }
    }
}

/// How the gathered values `q` (never empty) are published.
pub open spec fn resolution<F>(q: Seq<StatValueView<F>>) -> ResolutionView<F> {
    if q[0] is Text {
        ResolutionView::Last(q.last())
    } else {
        ResolutionView::Mean(q)
    }
}

/// What to do on a new value of a statistic.
#[derive(Clone, Debug)]
pub struct StatActions<F> {
    /// Announce this control entity (before anything else).
    pub control: Option<ControlEntity>,
    /// Announce the sensor of the statistic (its first value).
    pub sensor_discovery: bool,
    /// Publish the state now, drawn from these values.
    pub update: Option<Resolution<F>>,
}

pub struct StatActionsView<F> {
    pub control: Option<ControlEntity>,
    pub sensor_discovery: bool,
    pub update: Option<ResolutionView<F>>,
}

impl<F> View for StatActions<F> {
    type V = StatActionsView<F>;

    open spec fn view(&self) -> StatActionsView<F> {
        StatActionsView {
            control: self.control,
            sensor_discovery: self.sensor_discovery,
            update: match self.update {
                Some(r) => Some(r@),
                None => None,
            },
        }
    }
}

/// The state of the MQTT side: a track per statistic seen, and the minimum
/// number of seconds between two publications of a statistic.
pub struct Bridge<F> {
    tracks: Vec<Track<F>>,
    throttle_secs: i64,
}

pub struct BridgeView<F> {
    pub tracks: Map<Seq<char>, TrackView<F>>,
    pub throttle_secs: i64,
}

impl<F> View for Bridge<F> {
    type V = BridgeView<F>;

    closed spec fn view(&self) -> BridgeView<F> {
        BridgeView { tracks: tracks_map(self.tracks@), throttle_secs: self.throttle_secs }
    }
}

/// A publication is due when the statistic was never published, or when `now`
/// is later than its last publication plus `throttle_secs` seconds.
pub open spec fn due(last: Option<UtcTime>, now: UtcTime, throttle_secs: i64) -> bool {
    match last {
        None => true,
        Some(t) => nanos_of(now) > nanos_of(t) + throttle_secs * 1_000_000_000,
    }
}

/// The new state and the actions on a value `v` of statistic `id` received at `now`.
pub open spec fn step<F>(s: BridgeView<F>, id: Seq<char>, v: StatValueView<F>, now: UtcTime) -> (
    BridgeView<F>,
    StatActionsView<F>,
) {
    let known = s.tracks.contains_key(id);
    let announced = known && s.tracks[id].control;
    let control = if announced {
        None
    } else {
        control_entity_of(id)
    };
    let queue = if known {
        s.tracks[id].queue.push(v)
    } else {
        seq![v]
    };
    let last = if known {
        s.tracks[id].last
    } else {
        None
    };
    let is_due = due(last, now, s.throttle_secs);
    let track = TrackView {
        queue: if is_due {
            Seq::empty()
        } else {
            queue
        },
        last: if is_due {
            Some(now)
        } else {
            last
        },
        control: announced || control is Some,
    };
    (
        BridgeView { tracks: s.tracks.insert(id, track), throttle_secs: s.throttle_secs },
        StatActionsView {
            control,
            sensor_discovery: !known,
            update: if is_due {
                Some(resolution(queue))
            } else {
                None
            },
        },
    )
}

/// Adding the throttle to the last publication of `id` stays within what
/// `chrono` represents (beyond it, `DateTime + TimeDelta` panics).
pub open spec fn deadline_representable<F>(s: BridgeView<F>, id: Seq<char>) -> bool {
    s.tracks.contains_key(id) && s.tracks[id].last is Some ==> {
        let t = s.tracks[id].last->0;
        &&& -MAX_DELTA_SECS <= s.throttle_secs <= MAX_DELTA_SECS
        &&& MIN_TIMESTAMP_SECS <= t.secs + s.throttle_secs <= MAX_TIMESTAMP_SECS
    }
}

proof fn lemma_tracks_map_contains<F>(v: Seq<Track<F>>, k: Seq<char>)
    ensures
        tracks_map(v).contains_key(k) <==> exists|i: int| 0 <= i < v.len() && v[i].id@ == k,
    decreases v.len(),
{
    if v.len() > 0 {
        lemma_tracks_map_contains(v.drop_last(), k);
        if tracks_map(v.drop_last()).contains_key(k) {
            let i = choose|i: int| 0 <= i < v.drop_last().len() && v.drop_last()[i].id@ == k;
            assert(v[i].id@ == k);
        }
        if exists|i: int| 0 <= i < v.len() && v[i].id@ == k {
            let i = choose|i: int| 0 <= i < v.len() && v[i].id@ == k;
            if i < v.len() - 1 {
                assert(v.drop_last()[i].id@ == k);
            }
        }
    }
}

proof fn lemma_tracks_map_value<F>(v: Seq<Track<F>>, i: int)
    requires
        unique_ids(v),
        0 <= i < v.len(),
    ensures
        tracks_map(v).contains_key(v[i].id@),
        tracks_map(v)[v[i].id@] == v[i]@,
    decreases v.len(),
{
    if i < v.len() - 1 {
        lemma_tracks_map_value(v.drop_last(), i);
        assert(v.drop_last()[i] == v[i]);
        assert(v.last().id@ != v[i].id@);
    }
}

proof fn lemma_tracks_map_update<F>(v: Seq<Track<F>>, i: int, t: Track<F>)
    requires
        unique_ids(v),
        0 <= i < v.len(),
        t.id@ == v[i].id@,
    ensures
        unique_ids(v.update(i, t)),
        tracks_map(v.update(i, t)) == tracks_map(v).insert(t.id@, t@),
    decreases v.len(),
{
    let w = v.update(i, t);
    assert(unique_ids(w)) by {
        assert forall|a: int, b: int| 0 <= a < b < w.len() implies w[a].id@ != w[b].id@ by {
            assert(v[a].id@ != v[b].id@);
        }
    }
    if i == v.len() - 1 {
        assert(w.drop_last() =~= v.drop_last());
        assert(tracks_map(v).insert(t.id@, t@) =~= tracks_map(v.drop_last()).insert(t.id@, t@));
    } else {
        lemma_tracks_map_update(v.drop_last(), i, t);
        assert(w.drop_last() =~= v.drop_last().update(i, t));
        assert(v.last().id@ != t.id@);
        assert(tracks_map(w) =~= tracks_map(v).insert(t.id@, t@));
    }
}

proof fn lemma_unique_push<F>(v: Seq<Track<F>>, t: Track<F>)
    requires
        unique_ids(v),
        forall|i: int| 0 <= i < v.len() ==> v[i].id@ != t.id@,
    ensures
        unique_ids(v.push(t)),
        tracks_map(v.push(t)) == tracks_map(v).insert(t.id@, t@),
{
    assert(v.push(t).drop_last() =~= v);
}


/// The values `q` (never empty) turned into what is published.
fn resolve<F>(q: Vec<StatValue<F>>) -> (r: Resolution<F>)
    requires
        q@.len() > 0,
    ensures
        r@ == resolution(values_view(q@)),
{
    let mut q = q;
    let first_is_text = match &q[0] {
        StatValue::Text(_) => true,
        _ => false,
    };
    assert(first_is_text == (values_view(q@)[0] is Text));
    if first_is_text {
        let last = q.pop().unwrap();
        Resolution::Last(last)
    } else {
        Resolution::Mean(q)
    }
}

/// `now` is later than `last` plus `throttle_secs` seconds.
fn later_than(now: UtcTime, last: UtcTime, throttle_secs: i64) -> (r: bool)
    ensures
        r == (nanos_of(now) > nanos_of(last) + throttle_secs * 1_000_000_000),
{
    let n: i128 = (now.secs as i128) * 1_000_000_000 + (now.nanos as i128);
    let d: i128 = (last.secs as i128) * 1_000_000_000 + (last.nanos as i128) + (throttle_secs as i128)
        * 1_000_000_000;
    n > d
}

impl<F> Bridge<F> {
    /// The tracks have distinct ids, and every publication time is representable.
    pub closed spec fn wf(&self) -> bool {
        &&& unique_ids(self.tracks@)
        &&& forall|i: int|
            0 <= i < self.tracks@.len() ==> ((#[trigger] self.tracks@[i]).last matches Some(t)
                ==> representable(t))
    }

    /// A bridge that has seen no statistic, publishing a statistic at most once
    /// every `throttle_secs` seconds.
    pub fn new(throttle_secs: i64) -> (r: Self)
        ensures
            r.wf(),
            r@.tracks == Map::<Seq<char>, TrackView<F>>::empty(),
            r@.throttle_secs == throttle_secs,
    {
        let r = Bridge { tracks: Vec::new(), throttle_secs };
        assert(r@.tracks =~= Map::<Seq<char>, TrackView<F>>::empty());
        r
    }

    pub fn throttle_secs(&self) -> (r: i64)
        ensures
            r == self@.throttle_secs,
    {
        self.throttle_secs
    }

    fn find(&self, id: &str) -> (r: Option<usize>)
        ensures
            match r {
                Some(i) => i < self.tracks@.len() && self.tracks@[i as int].id@ == id@,
                None => forall|i: int| 0 <= i < self.tracks@.len() ==> self.tracks@[i].id@ != id@,
            },
    {
        let key = id.to_owned();
        let mut i: usize = 0;
        while i < self.tracks.len()
            invariant
                i <= self.tracks@.len(),
                key@ == id@,
                forall|k: int| 0 <= k < i ==> self.tracks@[k].id@ != id@,
            decreases self.tracks@.len() - i,
        {
            if self.tracks[i].id == key {
                return Some(i);
            }
            i = i + 1;
        }
        None
    }

    /// Whether [`Bridge::handle`] may take a value of `id`: adding the throttle to
    /// its last publication stays within what `chrono` represents.
    pub fn deadline_in_range(&self, id: &str) -> (r: bool)
        requires
            self.wf(),
        ensures
            r == deadline_representable(self@, id@),
    {
        proof {
            lemma_tracks_map_contains(self.tracks@, id@);
        }
        match self.find(id) {
            None => true,
            Some(i) => {
                proof {
                    lemma_tracks_map_value(self.tracks@, i as int);
                }
                match self.tracks[i].last {
                    None => true,
                    Some(t) => {
                        let th = self.throttle_secs;
                        -MAX_DELTA_SECS <= th && th <= MAX_DELTA_SECS && MIN_TIMESTAMP_SECS as i128
                            <= t.secs as i128 + th as i128 && t.secs as i128 + th as i128
                            <= MAX_TIMESTAMP_SECS as i128
                    },
                }
            },
        }
    }

    /// Takes the value `value` of statistic `id`, received at `now`, and says what
    /// to announce and publish.
    pub fn handle(&mut self, id: &str, value: StatValue<F>, now: UtcTime) -> (r: StatActions<F>)
        requires
            old(self).wf(),
            representable(now),
            deadline_representable(old(self)@, id@),
        ensures
            final(self).wf(),
            final(self)@ == step(old(self)@, id@, value@, now).0,
            r@ == step(old(self)@, id@, value@, now).1,
    {
        proof {
            lemma_tracks_map_contains(self.tracks@, id@);
        }
        let ghost s0 = self@;
        let ghost v0 = self.tracks@;
        match self.find(id) {
            None => {
                let control = control_entity(id);
                let mut q: Vec<StatValue<F>> = Vec::new();
                q.push(value);
                let res = resolve(q);
                let t = Track {
                    id: id.to_owned(),
                    queue: Vec::new(),
                    last: Some(now),
                    control: control.is_some(),
                };
                proof {
                    lemma_unique_push(self.tracks@, t);
                }
                self.tracks.push(t);
                proof {
                    assert(values_view(Seq::<StatValue<F>>::empty()) =~= Seq::empty());
                    assert(values_view(seq![value]) =~= seq![value@]);
                    assert(self@.tracks =~= step(s0, id@, value@, now).0.tracks);
                }
                StatActions { control, sensor_discovery: true, update: Some(res) }
            },
            Some(i) => {
                proof {
                    lemma_tracks_map_value(self.tracks@, i as int);
                }
                let old_track = self.tracks.remove(i);
                let Track { id: tid, queue, last, control: announced } = old_track;
                let control = if announced {
                    None
                } else {
                    control_entity(id)
                };
                let mut queue = queue;
                let ghost q0 = queue@;
                queue.push(value);
                proof {
                    assert(values_view(queue@) =~= values_view(q0).push(value@));
                }
                let is_due = match last {
                    None => true,
                    Some(t) => later_than(now, t, self.throttle_secs),
                };
                if is_due {
                    let res = resolve(queue);
                    let t = Track {
                        id: tid,
                        queue: Vec::new(),
                        last: Some(now),
                        control: announced || control.is_some(),
                    };
                    proof {
                        lemma_tracks_map_update(v0, i as int, t);
                    }
                    self.tracks.insert(i, t);
                    proof {
                        assert(self.tracks@ =~= v0.update(i as int, t));
                        assert(values_view(Seq::<StatValue<F>>::empty()) =~= Seq::empty());
                        assert(self@.tracks =~= step(s0, id@, value@, now).0.tracks);
                        assert forall|k: int| 0 <= k < self.tracks@.len() implies ((
                        #[trigger] self.tracks@[k]).last matches Some(t) ==> representable(t)) by {
                            if k != i {
                                assert(self.tracks@[k] == v0[k]);
                            }
                        }
                    }
                    StatActions { control, sensor_discovery: false, update: Some(res) }
                } else {
                    let t = Track {
                        id: tid,
                        queue,
                        last,
                        control: announced || control.is_some(),
                    };
                    proof {
                        lemma_tracks_map_update(v0, i as int, t);
                    }
                    self.tracks.insert(i, t);
                    proof {
                        assert(self.tracks@ =~= v0.update(i as int, t));
                        assert(self@.tracks =~= step(s0, id@, value@, now).0.tracks);
                        assert forall|k: int| 0 <= k < self.tracks@.len() implies ((
                        #[trigger] self.tracks@[k]).last matches Some(t) ==> representable(t)) by {
                            if k != i {
                                assert(self.tracks@[k] == v0[k]);
                            }
                        }
                    }
                    StatActions { control, sensor_discovery: false, update: None }
                }
            },
        }
    }
}


/// How to log in to the MQTT broker.
#[derive(Clone, Debug)]
pub enum Credentials {
    Anonymous,
    Login { username: String, password: String },
}

/// The credentials for the broker: none without a user name, the user name and
/// password when both are given; `None` (the MQTT side does not start) when a user
/// name is given without a password.
pub fn mqtt_credentials(username: &Option<String>, password: &Option<String>) -> (r: Option<
    Credentials,
>)
    ensures
        match (*username, *password) {
            (None, _) => r matches Some(Credentials::Anonymous),
            (Some(u), Some(p)) => r matches Some(Credentials::Login { username, password })
                && username@ == u@ && password@ == p@,
            (Some(_), None) => r is None,
        },
{
    match username {
        None => Some(Credentials::Anonymous),
        Some(u) => match password {
            Some(p) => Some(Credentials::Login { username: u.clone(), password: p.clone() }),
            None => None,
        },
    }
}

} // verus!
