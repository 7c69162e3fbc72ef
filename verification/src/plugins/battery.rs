//! Battery status plugin.
//!
//! Answers `kdeconnect.battery.request` probes from the phone with a report
//! on the local power supplies, and records the `kdeconnect.battery` reports
//! that the phone pushes. Reports have the body
//! `{"currentCharge": <0-100>, "isCharging": bool, "thresholdEvent": 0}`.
use super::meta;
use super::{
    HostEnv, MetaView, Plugin, PluginFactory, PluginHost, PluginInstance, PluginMeta, PluginState,
    ReplyView,
};
use crate::json;
use crate::json::{Json, JsonView, Record};
use crate::protocol::packet::PacketView;
use crate::ordered::TextMap;
use crate::protocol::packet;
use crate::protocol::{Packet, PacketIds, TYPE_BATTERY, TYPE_BATTERY_REQUEST};
use crate::text;
use vstd::prelude::*;

verus! {

/// Charge percentage reported when no usable local power supply is found.
pub const FALLBACK_LEVEL: u8 = 50;

/// Latest known charge state of one device.
#[derive(Debug, Clone, Copy, PartialEq, Eq, Structural)]
pub struct BatteryState {
    /// Remaining charge, 0-100 percent.
    pub level: u8,
    /// Whether the device is plugged in and charging.
    pub charging: bool,
    /// Time the state was observed, in milliseconds since the Unix epoch.
    pub reported_at: u64,
}

impl BatteryState {
    /// Remaining charge, 0-100 percent.
    pub fn level(self) -> (r: u8)
        ensures
            r == self.level,
    {
        self.level
    }

    /// Whether the device is plugged in and charging.
    pub fn charging(self) -> (r: bool)
        ensures
            r == self.charging,
    {
        self.charging
    }

    /// Time the state was observed.
    pub fn reported_at(self) -> (r: u64)
        ensures
            r == self.reported_at,
    {
        self.reported_at
    }
}

/// `level`, but at most 100.
pub open spec fn at_most_full(level: int) -> int {
    if level > 100 {
        100
    } else {
        level
    }
}

/// The body of a battery report.
pub open spec fn report_json(level: u8, charging: bool) -> JsonView {
    JsonView::Object(
        Map::<Seq<char>, JsonView>::empty()
            .insert("currentCharge"@, JsonView::Int(at_most_full(level as int)))
            .insert("isCharging"@, JsonView::Bool(charging))
            .insert("thresholdEvent"@, JsonView::Int(0)),
    )
}

fn report_body(level: u8, charging: bool) -> (r: Json)
    ensures
        r@ == report_json(level, charging),
{
    let charge: u64 = if level > 100 {
        100
    } else {
        level as u64
    };
    Record::new()
        .with("currentCharge", Json::Uint(charge))
        .with("isCharging", Json::Bool(charging))
        .with("thresholdEvent", Json::Uint(0))
        .done()
}

/// Builds the `kdeconnect.battery` report packet. Levels above 100 are
/// clamped.
pub fn build_report(ids: &mut PacketIds, level: u8, charging: bool) -> (r: Packet)
    ensures
        r@ == packet::plain_packet(
            packet::successor(old(ids).latest()),
            TYPE_BATTERY@,
            report_json(level, charging),
        ),
        final(ids).latest() == r.id,
{
    Packet::new(ids, TYPE_BATTERY, report_body(level, charging))
}

/// The body of a request for a battery report.
pub open spec fn request_json() -> JsonView {
    JsonView::Object(
        Map::<Seq<char>, JsonView>::empty().insert("request"@, JsonView::Bool(true)),
    )
}

/// Builds an outbound packet asking the peer for a battery report.
pub fn build_request(ids: &mut PacketIds) -> (r: Packet)
    ensures
        r@ == packet::plain_packet(
            packet::successor(old(ids).latest()),
            TYPE_BATTERY_REQUEST@,
            request_json(),
        ),
        final(ids).latest() == r.id,
{
    Packet::new(
        ids,
        TYPE_BATTERY_REQUEST,
        Record::new().with("request", Json::Bool(true)).done(),
    )
}

/// Neutral state used when local hardware probing fails entirely.
pub fn fallback_state(now: u64) -> (r: BatteryState)
    ensures
        r == (BatteryState { level: FALLBACK_LEVEL, charging: false, reported_at: now }),
{
    BatteryState { level: FALLBACK_LEVEL, charging: false, reported_at: now }
}

/// Whether a sysfs `status` value says that the battery draws power.
pub open spec fn says_charging(status: Seq<char>) -> bool {
    let s = text::ascii_lowercase(text::trimmed(status));
    s == "charging"@ || s == "full"@ || s == "fast charging"@ || s == "trickle charging"@
}

/// Maps a sysfs `status` value onto the `isCharging` wire boolean. Only
/// states that draw power actively count as charging.
pub fn status_is_charging(status: &str) -> (r: bool)
    ensures
        r == says_charging(status@),
{
    let s = text::to_ascii_lowercase(text::trim(status).as_str());
    text::same(s.as_str(), "charging") || text::same(s.as_str(), "full") || text::same(
        s.as_str(),
        "fast charging",
    ) || text::same(s.as_str(), "trickle charging")
}

/// The attribute files of one sysfs power supply, as far as they were
/// readable; `S` is the type of their texts.
#[derive(Debug)]
pub struct Supply<S = String> {
    /// Name of the supply's directory.
    pub name: S,
    /// Content of `type`.
    pub kind: Option<S>,
    /// Content of `capacity`.
    pub capacity: Option<S>,
    /// Content of `status`.
    pub status: Option<S>,
}

/// What an optional text says.
pub open spec fn optional_text(t: Option<String>) -> Option<Seq<char>> {
    match t {
        Some(s) => Some(s@),
        None => None,
    }
}

impl View for Supply<String> {
    type V = Supply<Seq<char>>;

    open spec fn view(&self) -> Supply<Seq<char>> {
        Supply {
            name: self.name@,
            kind: optional_text(self.kind),
            capacity: optional_text(self.capacity),
            status: optional_text(self.status),
        }
    }
}

/// What a supply says, if it is a battery with a plausible capacity.
pub open spec fn supply_state(s: Supply<Seq<char>>, now: u64) -> Option<BatteryState> {
    match (s.kind, s.capacity) {
        (Some(kind), Some(capacity)) => {
            let digits = text::trimmed(capacity);
            match text::number(digits) {
                Some(n) if text::trimmed(kind) == "Battery"@ && digits[0] != '-' && n
                    <= 100 => Some(
                    BatteryState {
                        level: n as u8,
                        charging: match s.status {
                            Some(status) => says_charging(status),
                            None => says_charging(Seq::empty()),
                        },
                        reported_at: now,
                    },
                ),
                _ => None,
            }
        },
        _ => None,
    }
}

/// Reads one power supply.
pub fn read_supply(s: &Supply, now: u64) -> (r: Option<BatteryState>)
    ensures
        r == supply_state(s@, now),
{
    let kind = match &s.kind {
        Some(kind) => kind,
        None => {
            return None;
        },
    };
    let capacity = match &s.capacity {
        Some(capacity) => capacity,
        None => {
            return None;
        },
    };
    if !text::same(text::trim(kind.as_str()).as_str(), "Battery") {
        return None;
    }
    let level = match text::parse_unsigned(text::trim(capacity.as_str()).as_str(), 100) {
        Some(n) => n as u8,
        None => {
            return None;
        },
    };
    let charging = match &s.status {
        Some(status) => status_is_charging(status.as_str()),
        None => status_is_charging(String::new().as_str()),
    };
    Some(BatteryState { level, charging, reported_at: now })
}

/// Whether supply `a` is preferred to supply `b` by name: batteries named
/// `BAT*` come first, and names are in order otherwise.
pub open spec fn preferred(a: Seq<char>, b: Seq<char>) -> bool {
    let x = text::has_prefix(a, "BAT"@);
    let y = text::has_prefix(b, "BAT"@);
    (x && !y) || (x == y && text::before(a, b))
}

/// Whether position `i` holds the best of the usable supplies: none that is
/// usable is preferred to it, and of equal names the first counts.
pub open spec fn best_supply(supplies: Seq<Supply>, i: int, now: u64) -> bool {
    &&& 0 <= i < supplies.len()
    &&& supply_state(supplies[i]@, now) is Some
    &&& forall|j: int|
        0 <= j < supplies.len() && supply_state((#[trigger] supplies[j])@, now) is Some
            ==> !preferred(supplies[j].name@, supplies[i].name@) && (j < i ==> supplies[j].name@
            != supplies[i].name@)
}

proof fn lemma_preferred_transitive(a: Seq<char>, b: Seq<char>, c: Seq<char>)
    ensures
        preferred(a, b) && preferred(b, c) ==> preferred(a, c),
        preferred(a, b) && b == c ==> preferred(a, c),
        !preferred(b, a) && preferred(b, c) ==> preferred(a, c),
        !(preferred(a, b) && preferred(b, a)),
        preferred(a, b) || preferred(b, a) || a == b,
{
    text::lemma_before_total(a, b);
    text::lemma_before_total(b, c);
    text::lemma_before_total(a, c);
    if text::before(a, b) && text::before(b, c) {
        text::lemma_before_transitive(a, b, c);
    }
}

fn is_preferred(a: &str, b: &str) -> (r: bool)
    ensures
        r == preferred(a@, b@),
{
    let x = text::starts_with(a, "BAT");
    let y = text::starts_with(b, "BAT");
    (x && !y) || (x == y && text::is_before(a, b))
}

/// Picks the best local battery.
///
/// Supplies named `BAT*` are preferred; names decide otherwise. Returns
/// `None` when no battery has a plausible capacity.
pub fn read_local_battery(supplies: &Vec<Supply>, now: u64) -> (r: Option<BatteryState>)
    ensures
        match r {
            Some(state) => exists|i: int| #[trigger]
                best_supply(supplies@, i, now) && supply_state(supplies@[i]@, now) == Some(state),
            None => forall|i: int|
                0 <= i < supplies@.len() ==> supply_state((#[trigger] supplies@[i])@, now) is None,
        },
{
    let mut best: Option<(usize, BatteryState)> = None;
    let mut i: usize = 0;
    while i < supplies.len()
        invariant
            i <= supplies@.len(),
            match best {
                Some((b, state)) => best_supply(supplies@.take(i as int), b as int, now)
                    && supply_state(supplies@[b as int]@, now) == Some(state),
                None => forall|j: int|
                    0 <= j < i ==> supply_state((#[trigger] supplies@[j])@, now) is None,
            },
        decreases supplies@.len() - i,
    {
        let ghost seen = supplies@.take(i as int);
        let ghost next = supplies@.take(i + 1);
        proof {
            assert(forall|j: int| 0 <= j < i ==> seen[j] == supplies@[j] && next[j] == seen[j]);
            assert(next[i as int] == supplies@[i as int]);
        }
        match read_supply(&supplies[i], now) {
            Some(state) => {
                let better = match &best {
                    Some((b, _)) => is_preferred(
                        supplies[i].name.as_str(),
                        supplies[*b].name.as_str(),
                    ),
                    None => true,
                };
                if better {
                    proof {
                        if let Some((b, _)) = best {
                            assert forall|j: int|
                                0 <= j < next.len() && supply_state((#[trigger] next[j])@, now)
                                    is Some implies !preferred(
                                next[j].name@,
                                next[i as int].name@,
                            ) && (j < i ==> next[j].name@ != next[i as int].name@) by {
                                lemma_preferred_transitive(
                                    next[i as int].name@,
                                    seen[b as int].name@,
                                    next[j].name@,
                                );
                                lemma_preferred_transitive(
                                    next[j].name@,
                                    next[i as int].name@,
                                    seen[b as int].name@,
                                );
                                lemma_preferred_transitive(
                                    next[j].name@,
                                    next[j].name@,
                                    next[j].name@,
                                );
                                if j < i {
                                    assert(next[j] == seen[j]);
                                }
                            }
                        } else {
                            lemma_preferred_transitive(
                                next[i as int].name@,
                                next[i as int].name@,
                                next[i as int].name@,
                            );
                        }
                        assert(best_supply(next, i as int, now));
                    }
                    best = Some((i, state));
                } else {
                    proof {
                        let (at, _) = best->0;
                        let b = at as int;
                        assert forall|j: int|
                            0 <= j < next.len() && supply_state((#[trigger] next[j])@, now)
                                is Some implies !preferred(next[j].name@, next[b].name@) && (j < b
                            ==> next[j].name@ != next[b].name@) by {
                            if j < i {
                                assert(next[j] == seen[j]);
                            }
                        }
                        assert(best_supply(next, b, now));
                    }
                }
            },
            None => {
                proof {
                    if let Some((b, _)) = best {
                        assert forall|j: int|
                            0 <= j < next.len() && supply_state((#[trigger] next[j])@, now)
                                is Some implies !preferred(next[j].name@, next[b as int].name@) && (
                        j < b ==> next[j].name@ != next[b as int].name@) by {
                            if j < i {
                                assert(next[j] == seen[j]);
                            }
                        }
                        assert(best_supply(next, b as int, now));
                    }
                }
            },
        }
        i += 1;
    }
    assert(supplies@.take(i as int) =~= supplies@);
    match best {
        Some((_, state)) => Some(state),
        None => None,
    }
}

/// Cache of the most recent [`BatteryState`] per device id.
#[derive(Debug)]
pub struct BatteryCache {
    states: TextMap<BatteryState>,
}

impl View for BatteryCache {
    type V = Map<Seq<char>, BatteryState>;

    closed spec fn view(&self) -> Map<Seq<char>, BatteryState> {
        self.states@
    }
}

impl BatteryCache {
    /// Creates an empty cache.
    pub fn new() -> (r: Self)
        ensures
            r@ == Map::<Seq<char>, BatteryState>::empty(),
    {
        BatteryCache { states: TextMap::new() }
    }

    /// Records `state` for `device_id`.
    pub fn set(&mut self, device_id: &str, state: BatteryState)
        ensures
            final(self)@ == old(self)@.insert(device_id@, state),
    {
        let _ = self.states.insert(device_id.to_owned(), state);
    }

    /// Returns the most recent state recorded for `device_id`, if any.
    pub fn get(&self, device_id: &str) -> (r: Option<BatteryState>)
        ensures
            r == if self@.contains_key(device_id@) {
                Some(self@[device_id@])
            } else {
                None
            },
    {
        match self.states.get(device_id) {
            Some(state) => Some(*state),
            None => None,
        }
    }
}

/// The state that a `kdeconnect.battery` body reports: a body without an
/// integer `currentCharge` from 0 to 100 reports nothing.
pub open spec fn reported_state(body: JsonView, now: u64) -> Option<BatteryState> {
    match json::count_at(body, "currentCharge"@) {
        Some(n) if n <= 100 => Some(
            BatteryState {
                level: n as u8,
                charging: match json::flag_at(body, "isCharging"@) {
                    Some(b) => b,
                    None => false,
                },
                reported_at: now,
            },
        ),
        _ => None,
    }
}

/// A report that was built here is read back as the clamped level and the
/// flag.
pub proof fn law_battery_report_reads_back(level: u8, charging: bool, now: u64)
    ensures
        reported_state(report_json(level, charging), now) == Some(
            BatteryState {
                level: at_most_full(level as int) as u8,
                charging,
                reported_at: now,
            },
        ),
{
    reveal_strlit("currentCharge");
    reveal_strlit("isCharging");
    reveal_strlit("thresholdEvent");
    assert("currentCharge"@.len() == 13 && "isCharging"@.len() == 10);
    assert("thresholdEvent"@.len() == 14);
}

/// Answers battery requests from the phone and stores reports from it.
///
/// One instance serves one connection; bind it to a device with
/// [`BatteryPlugin::for_device`] to have its reports mirrored into the host's
/// cache.
#[derive(Debug)]
pub struct BatteryPlugin {
    last: Option<BatteryState>,
    device_id: Option<String>,
    reader: Option<Option<BatteryState>>,
}

impl BatteryPlugin {
    /// Most recent report pushed by the phone.
    pub closed spec fn latest(&self) -> Option<BatteryState> {
        self.last
    }

    /// The device whose reports are mirrored.
    pub closed spec fn device(&self) -> Option<Seq<char>> {
        optional_text(self.device_id)
    }

    /// What stands in for a reading of the local power supplies.
    pub closed spec fn probe(&self) -> Option<Option<BatteryState>> {
        self.reader
    }

    /// The local battery when a request comes.
    pub open spec fn local(&self, env: HostEnv) -> Option<BatteryState> {
        match self.probe() {
            Some(reading) => reading,
            None => env.battery,
        }
    }

    /// Create a plugin instance with no remote report observed yet.
    pub fn new() -> (r: Self)
        ensures
            r.latest() is None,
            r.device() is None,
            r.probe() is None,
    {
        BatteryPlugin { last: None, device_id: None, reader: None }
    }

    /// Bind the instance to `device_id`, mirroring every received report into
    /// the host's cache.
    pub fn for_device(device_id: String) -> (r: Self)
        ensures
            r.latest() is None,
            r.device() == Some(device_id@),
            r.probe() is None,
    {
        BatteryPlugin { last: None, device_id: Some(device_id), reader: None }
    }

    /// Overrides what reading the local power supplies gives.
    pub fn with_reader(self, reading: Option<BatteryState>) -> (r: Self)
        ensures
            r.latest() == self.latest(),
            r.device() == self.device(),
            r.probe() == Some(reading),
    {
        BatteryPlugin { last: self.last, device_id: self.device_id, reader: Some(reading) }
    }

    /// Most recent report pushed by the phone, if any.
    pub fn last_state(&self) -> (r: Option<BatteryState>)
        ensures
            r == self.latest(),
    {
        self.last
    }

    /// Validates and records an inbound `kdeconnect.battery` body. A body
    /// without an integer `currentCharge` from 0 to 100 is dropped.
    fn record_remote(&mut self, pkt: &Packet, host: &mut PluginHost)
        ensures
            final(self).device() == old(self).device(),
            final(self).probe() == old(self).probe(),
            final(host).ids == old(host).ids,
            final(host).env() == old(host).env(),
            match reported_state(pkt@.body, old(host).now) {
                Some(state) => final(self).latest() == Some(state) && final(host).batteries@
                    == match old(self).device() {
                    Some(id) => old(host).batteries@.insert(id, state),
                    None => old(host).batteries@,
                },
                None => final(self).latest() == old(self).latest() && final(host).batteries@
                    == old(host).batteries@,
            },
    {
        let raw = match pkt.body.u64_member("currentCharge") {
            Some(raw) => raw,
            None => {
                return ;
            },
        };
        if raw > 100 {
            return ;
        }
        let charging = match pkt.body.bool_member("isCharging") {
            Some(charging) => charging,
            None => false,
        };
        let state = BatteryState { level: raw as u8, charging, reported_at: host.now };
        if let Some(id) = &self.device_id {
            host.batteries.set(id.as_str(), state);
        }
        self.last = Some(state);
    }
}

/// Whether a packet asks for the local battery: only then is it read.
pub fn asks_for_battery(packet: &Packet) -> (r: bool)
    ensures
        r == (packet@.ptype == TYPE_BATTERY_REQUEST@),
{
    text::same(packet.ty(), TYPE_BATTERY_REQUEST)
}

impl Default for BatteryPlugin {
    fn default() -> (r: Self)
        ensures
            r.latest() is None,
            r.device() is None,
            r.probe() is None,
    {
        BatteryPlugin::new()
    }
}

impl Plugin for BatteryPlugin {
    open spec fn described(&self) -> MetaView {
        meta::battery_view()
    }

    open spec fn standing(&self) -> PluginState {
        PluginState::Battery {
            latest: self.latest(),
            device: self.device(),
            probe: self.probe(),
        }
    }

    open spec fn next(&self, pkt: PacketView, env: HostEnv) -> PluginState {
        PluginState::Battery {
            latest: match reported_state(pkt.body, env.now) {
                Some(state) if pkt.ptype == TYPE_BATTERY@ => Some(state),
                _ => self.latest(),
            },
            device: self.device(),
            probe: self.probe(),
        }
    }

    open spec fn replies(&self, pkt: PacketView, env: HostEnv) -> Seq<ReplyView> {
        if pkt.ptype == TYPE_BATTERY_REQUEST@ {
            let (level, charging) = match self.local(env) {
                Some(state) => (state.level, state.charging),
                None => (FALLBACK_LEVEL, false),
            };
            seq![ReplyView { ptype: TYPE_BATTERY@, body: report_json(level, charging) }]
        } else {
            Seq::empty()
        }
    }

    open spec fn mirrored(
        &self,
        pkt: PacketView,
        env: HostEnv,
        batteries: Map<Seq<char>, BatteryState>,
    ) -> Map<Seq<char>, BatteryState> {
        match (reported_state(pkt.body, env.now), self.device()) {
            (Some(state), Some(id)) if pkt.ptype == TYPE_BATTERY@ => batteries.insert(id, state),
            _ => batteries,
        }
    }

    fn meta(&self) -> (r: PluginMeta) {
        meta::battery()
    }

    fn handle(&mut self, pkt: &Packet, host: &mut PluginHost) -> (r: Vec<Packet>) {
        proof {
            lemma_battery_types();
        }
        if text::same(pkt.ty(), TYPE_BATTERY_REQUEST) {
            let reading = match self.reader {
                Some(reading) => reading,
                None => host.battery,
            };
            let state = match reading {
                Some(state) => state,
                None => fallback_state(host.now),
            };
            super::answer(host, TYPE_BATTERY, report_body(state.level, state.charging))
        } else if text::same(pkt.ty(), TYPE_BATTERY) {
            self.record_remote(pkt, host);
            super::silence(host)
        } else {
            super::silence(host)
        }
    }
}

proof fn lemma_battery_types()
    ensures
        TYPE_BATTERY@ != TYPE_BATTERY_REQUEST@,
{
    reveal_strlit("kdeconnect.battery");
    reveal_strlit("kdeconnect.battery.request");
    assert(TYPE_BATTERY@.len() == 18);
    assert(TYPE_BATTERY_REQUEST@.len() == 26);
}

/// Builds [`BatteryPlugin`] instances.
#[derive(Debug, Clone, Copy)]
pub struct BatteryFactory;

impl PluginFactory for BatteryFactory {
    open spec fn describes(&self) -> MetaView {
        meta::battery_view()
    }

    open spec fn initial(&self) -> PluginState {
        PluginState::Battery { latest: None, device: None, probe: None }
    }

    fn meta(&self) -> (r: PluginMeta) {
        meta::battery()
    }

    fn create(&self) -> (r: PluginInstance) {
        PluginInstance::Battery(BatteryPlugin::new())
    }
}

/// A request is answered with one report, and the report gives the local
/// battery that was read: its level, at most 100, and whether it charges.
/// Where no battery was read the report says half full and not charging.
/// Nothing is recorded.
pub proof fn law_requests_report_the_local_battery(
    plugin: BatteryPlugin,
    pkt: PacketView,
    env: HostEnv,
    batteries: Map<Seq<char>, BatteryState>,
)
    requires
        pkt.ptype == TYPE_BATTERY_REQUEST@,
    ensures
        plugin.replies(pkt, env).len() == 1,
        plugin.replies(pkt, env)[0].ptype == TYPE_BATTERY@,
        ({
            let body = plugin.replies(pkt, env)[0].body;
            let read = match plugin.probe() {
                Some(reading) => reading,
                None => env.battery,
            };
            &&& read matches Some(state) ==> json::flag_at(body, "isCharging"@) == Some(
                state.charging,
            )
            &&& read matches Some(state) ==> (state.level <= 100 ==> json::count_at(
                body,
                "currentCharge"@,
            ) == Some(state.level as u64))
            &&& read matches Some(state) ==> (state.level > 100 ==> json::count_at(
                body,
                "currentCharge"@,
            ) == Some(100u64))
            &&& read is None ==> json::flag_at(body, "isCharging"@) == Some(false)
                && json::count_at(body, "currentCharge"@) == Some(50u64)
            &&& json::count_at(body, "thresholdEvent"@) == Some(0u64)
        }),
        plugin.next(pkt, env) == plugin.standing(),
        plugin.mirrored(pkt, env, batteries) == batteries,
{
    lemma_battery_types();
    lemma_report_keys();
}

/// A report of the phone is recorded as it was given, with the time at which
/// it came, for the device that the plugin is bound to and for no other. A
/// report without a percentage from 0 to 100 changes nothing, and neither does
/// a packet of another type. No report is answered.
pub proof fn law_reports_of_the_phone_are_recorded(
    plugin: BatteryPlugin,
    pkt: PacketView,
    env: HostEnv,
    batteries: Map<Seq<char>, BatteryState>,
    percent: u64,
    other: Seq<char>,
)
    ensures
        ({
            let told = pkt.ptype == TYPE_BATTERY@ && json::count_at(pkt.body, "currentCharge"@)
                == Some(percent) && percent <= 100;
            let state = BatteryState {
                level: percent as u8,
                charging: json::flag_at(pkt.body, "isCharging"@) == Some(true),
                reported_at: env.now,
            };
            &&& told ==> (plugin.next(pkt, env) matches PluginState::Battery {
                latest,
                device,
                probe,
            } && latest == Some(state) && device == plugin.device() && probe == plugin.probe())
            &&& told ==> (plugin.device() matches Some(id) ==> plugin.mirrored(
                pkt,
                env,
                batteries,
            ).contains_key(id) && plugin.mirrored(pkt, env, batteries)[id] == state)
            &&& Some(other) != plugin.device() ==> {
                let after = plugin.mirrored(pkt, env, batteries);
                &&& after.contains_key(other) == batteries.contains_key(other)
                &&& batteries.contains_key(other) ==> after[other] == batteries[other]
            }
        }),
        pkt.ptype != TYPE_BATTERY@ || json::count_at(pkt.body, "currentCharge"@) is None
            || json::count_at(pkt.body, "currentCharge"@)->0 > 100 ==> {
            &&& plugin.next(pkt, env) == plugin.standing()
            &&& plugin.mirrored(pkt, env, batteries) == batteries
        },
        pkt.ptype != TYPE_BATTERY_REQUEST@ ==> plugin.replies(pkt, env).len() == 0,
{
}

/// What one side answers to a request is what the other side records: the
/// local battery of the side that was asked, at most full.
pub proof fn law_answers_are_recorded_by_the_asker(
    asked: BatteryPlugin,
    asker: BatteryPlugin,
    request: PacketView,
    id: i64,
    env: HostEnv,
    later: HostEnv,
    state: BatteryState,
)
    requires
        request.ptype == TYPE_BATTERY_REQUEST@,
        asked.probe() is None,
        env.battery == Some(state),
        state.level <= 100,
    ensures
        ({
            let reply = asked.replies(request, env)[0];
            let answer = packet::plain_packet(id, reply.ptype, reply.body);
            asker.next(answer, later) matches PluginState::Battery { latest: Some(seen), .. }
                && seen.level == state.level && seen.charging == state.charging
                && seen.reported_at == later.now
        }),
{
    lemma_battery_types();
    lemma_report_keys();
}

/// A power supply is read as a battery exactly where it says that it is one
/// and gives a percentage: the level is the number that is written there.
pub proof fn law_supplies_are_read_as_written(
    name: Seq<char>,
    level: nat,
    status: Option<Seq<char>>,
    now: u64,
)
    requires
        level <= 100,
    ensures
        ({
            let read = supply_state(
                Supply {
                    name,
                    kind: Some("Battery"@),
                    capacity: Some(text::decimal(level)),
                    status,
                },
                now,
            );
            &&& read matches Some(state) && state.level == level && state.reported_at == now
            &&& status == Some("Charging"@) ==> read->0.charging
            &&& status == Some("Full"@) ==> read->0.charging
            &&& status == Some("Discharging"@) ==> !read->0.charging
            &&& status == Some("Not charging"@) ==> !read->0.charging
        }),
{
    let d = text::decimal(level);
    text::lemma_decimal_reads_back(level);
    lemma_digits_only(d, 0);
    lemma_digits_only(d, d.len() - 1);
    reveal_strlit("Battery");
    reveal_strlit("Charging");
    reveal_strlit("Full");
    reveal_strlit("Discharging");
    reveal_strlit("Not charging");
    reveal_strlit("charging");
    reveal_strlit("full");
    reveal_strlit("fast charging");
    reveal_strlit("trickle charging");
    assert(text::trimmed("Battery"@) == "Battery"@);
    assert(text::trimmed(d) == d);
    assert(text::trimmed("Charging"@) == "Charging"@);
    assert(text::trimmed("Full"@) == "Full"@);
    assert(text::trimmed("Discharging"@) == "Discharging"@);
    assert(text::trimmed("Not charging"@) == "Not charging"@);
    assert(text::ascii_lowercase("Charging"@) =~= "charging"@);
    assert(text::ascii_lowercase("Full"@) =~= "full"@);
    assert("charging"@.len() == 8 && "full"@.len() == 4 && "fast charging"@.len() == 13);
    assert("trickle charging"@.len() == 16);
    assert(text::ascii_lowercase("Discharging"@).len() == 11);
    assert(text::ascii_lowercase("Not charging"@).len() == 12);
}

/// A run of digits holds digits only.
proof fn lemma_digits_only(s: Seq<char>, i: int)
    requires
        text::digits_value(s) is Some,
        0 <= i < s.len(),
    ensures
        text::digit_value(s[i]) is Some,
    decreases s.len(),
{
    if i < s.len() - 1 {
        lemma_digits_only(s.drop_last(), i);
        assert(s.drop_last()[i] == s[i]);
    }
}

/// The names differ from one another.
proof fn lemma_report_keys()
    ensures
        "currentCharge"@ != "isCharging"@,
        "currentCharge"@ != "thresholdEvent"@,
        "isCharging"@ != "thresholdEvent"@,
{
    reveal_strlit("currentCharge");
    reveal_strlit("isCharging");
    reveal_strlit("thresholdEvent");
    assert("currentCharge"@.len() == 13);
    assert("isCharging"@.len() == 10);
    assert("thresholdEvent"@.len() == 14);
}

/// A usable battery named `BAT*` goes before every other supply, and there is
/// one best supply only.
pub proof fn law_batteries_go_before_other_supplies(
    supplies: Seq<Supply>,
    i: int,
    j: int,
    now: u64,
)
    requires
        best_supply(supplies, i, now),
        0 <= j < supplies.len(),
        supply_state(supplies[j]@, now) is Some,
    ensures
        text::has_prefix(supplies[j].name@, "BAT"@) ==> text::has_prefix(
            supplies[i].name@,
            "BAT"@,
        ),
        text::has_prefix(supplies[j].name@, "BAT"@) == text::has_prefix(
            supplies[i].name@,
            "BAT"@,
        ) ==> !text::before(supplies[j].name@, supplies[i].name@),
        supply_state(supplies[i]@, now) is Some,
{
    assert(!preferred(supplies[j].name@, supplies[i].name@));
}

} // verus!
