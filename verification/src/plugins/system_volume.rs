//! System-wide output volume reports (`system_volume`).
//!
//! Observes inbound reports shaped like
//! `{"direction":"in","sink_description":"...","volume":0-100,"mute":bool}`
//! and records the most recent state. Both the `muted` and the `mute`
//! spelling of the flag are accepted. Handling never replies.
use super::battery::BatteryState;
use super::meta;
use super::{
    HostEnv, MetaView, Plugin, PluginFactory, PluginHost, PluginInstance, PluginMeta, PluginState,
    ReplyView,
};
use crate::json;
use crate::json::{Json, JsonView, Record};
use crate::protocol::packet::PacketView;
use crate::protocol::packet;
use crate::protocol::{Packet, PacketIds, TYPE_SYSTEMVOLUME};
use crate::text;
use vstd::arithmetic::power2::pow2;
use vstd::prelude::*;

verus! {

/// Most recently observed sink volume state; `S` is the type of its text.
#[derive(Debug, Clone, PartialEq, Eq)]
pub struct VolumeState<S = String> {
    /// Human-readable sink label, when the peer supplied one.
    pub sink_description: Option<S>,
    /// Volume percentage, always within `0..=100`.
    pub volume: u8,
    /// Whether the sink is muted.
    pub muted: bool,
}

impl View for VolumeState<String> {
    type V = VolumeState<Seq<char>>;

    open spec fn view(&self) -> VolumeState<Seq<char>> {
        VolumeState {
            sink_description: super::battery::optional_text(self.sink_description),
            volume: self.volume,
            muted: self.muted,
        }
    }
}

/// The significand of a double-precision number with the given bit pattern:
/// its 52 fraction bits, with the implicit bit where the number is normal.
pub open spec fn significand(bits: u64) -> int {
    let fraction = bits as int % 0x10_0000_0000_0000;
    if (bits as int / 0x10_0000_0000_0000) % 0x800 == 0 {
        fraction
    } else {
        fraction + 0x10_0000_0000_0000
    }
}

/// The power of two by which the significand is scaled.
pub open spec fn scale(bits: u64) -> int {
    let field = (bits as int / 0x10_0000_0000_0000) % 0x800;
    if field == 0 {
        -1074
    } else {
        field - 1075
    }
}

/// The number with the given bit pattern, brought into `0..=100` and rounded
/// to the nearest integer, halves up.
pub open spec fn rounded_percent(bits: u64) -> int {
    let m = significand(bits);
    if bits >= 0x8000_0000_0000_0000 {
        0
    } else if scale(bits) >= 0 {
        100
    } else {
        let d = pow2((-scale(bits)) as nat) as int;
        if m >= 100 * d {
            100
        } else {
            (2 * m + d) / (2 * d)
        }
    }
}

/// The percentage that a JSON number stands for.
pub open spec fn percent_of(j: JsonView) -> Option<int> {
    match j {
        JsonView::Int(n) => Some(
            if n < 0 {
                0
            } else if n > 100 {
                100
            } else {
                n
            },
        ),
        JsonView::Float(bits) => Some(rounded_percent(bits)),
        _ => None,
    }
}

/// The power of two `2^n`.
fn power_of_two(n: u32) -> (r: u128)
    requires
        n < 64,
    ensures
        r == pow2(n as nat),
        1 <= r <= 0x8000_0000_0000_0000,
{
    let mut d: u128 = 1;
    let mut i: u32 = 0;
    proof {
        vstd::arithmetic::power2::lemma2_to64();
        vstd::arithmetic::power2::lemma2_to64_rest();
    }
    while i < n
        invariant
            i <= n < 64,
            d == pow2(i as nat),
        decreases n - i,
    {
        proof {
            vstd::arithmetic::power2::lemma_pow2_unfold((i + 1) as nat);
            vstd::arithmetic::power2::lemma2_to64();
            vstd::arithmetic::power2::lemma2_to64_rest();
            if i < 63 {
                vstd::arithmetic::power2::lemma_pow2_strictly_increases(i as nat, 63);
            }
        }
        d = d * 2;
        i += 1;
    }
    proof {
        if n < 63 {
            vstd::arithmetic::power2::lemma_pow2_strictly_increases(n as nat, 63);
        }
        vstd::arithmetic::power2::lemma_pow2_pos(n as nat);
    }
    d
}

/// Rounds the number with the given bit pattern to a percentage.
pub(crate) fn round_percent(bits: u64) -> (r: u8)
    ensures
        r == rounded_percent(bits),
        r <= 100,
{
    if bits >= 0x8000_0000_0000_0000 {
        return 0;
    }
    let field: u64 = (bits / 0x10_0000_0000_0000) % 0x800;
    let fraction: u64 = bits % 0x10_0000_0000_0000;
    let m: u64 = if field == 0 {
        fraction
    } else {
        fraction + 0x10_0000_0000_0000
    };
    if field >= 1075 {
        return 100;
    }
    let down: u64 = if field == 0 {
        1074
    } else {
        1075 - field
    };
    assert(down == -scale(bits) && m == significand(bits));
    if down >= 64 {
        proof {
            vstd::arithmetic::power2::lemma2_to64_rest();
            if down > 64 {
                vstd::arithmetic::power2::lemma_pow2_strictly_increases(64, down as nat);
            }
            let d = pow2(down as nat) as int;
            assert(d >= 0x1_0000_0000_0000_0000);
            assert((2 * m + d) / (2 * d) == 0) by (nonlinear_arith)
                requires
                    0 <= 2 * m < d,
            ;
        }
        return 0;
    }
    let d: u128 = power_of_two(down as u32);
    let wide: u128 = m as u128;
    if wide >= 100 * d {
        return 100;
    }
    let r: u128 = (2 * wide + d) / (2 * d);
    assert(r <= 100) by (nonlinear_arith)
        requires
            wide < 100 * d,
            d >= 1,
            r == (2 * wide + d) / (2 * d),
    ;
    r as u8
}

/// Reads a percentage from a JSON number.
fn read_percent(j: &Json) -> (r: Option<u8>)
    ensures
        match r {
            Some(n) => percent_of(j@) == Some(n as int) && n <= 100,
            None => percent_of(j@) is None,
        },
{
    match j {
        Json::Uint(n) => Some(
            if *n > 100 {
                100
            } else {
                *n as u8
            },
        ),
        Json::Int(n) => Some(
            if *n < 0 {
                0
            } else if *n > 100 {
                100
            } else {
                *n as u8
            },
        ),
        Json::Float(f) => Some(round_percent(f.bits())),
        _ => None,
    }
}

/// The flag that a report gives; a flag under `muted` hides one under `mute`.
pub open spec fn reported_mute(body: JsonView) -> bool {
    let flag = match json::member(body, "muted"@) {
        Some(v) => Some(v),
        None => json::member(body, "mute"@),
    };
    flag == Some(JsonView::Bool(true))
}

/// The state that a report gives: a body without a numeric `volume` gives
/// none.
pub open spec fn reported_volume(body: JsonView) -> Option<VolumeState<Seq<char>>> {
    match json::member(body, "volume"@) {
        Some(v) => match percent_of(v) {
            Some(n) => Some(
                VolumeState {
                    sink_description: json::text_at(body, "sink_description"@),
                    volume: n as u8,
                    muted: reported_mute(body),
                },
            ),
            None => None,
        },
        None => None,
    }
}

/// Extracts a [`VolumeState`] from a report body.
fn extract_state(body: &Json) -> (r: Option<VolumeState>)
    ensures
        match r {
            Some(state) => reported_volume(body@) == Some(state@) && state.volume <= 100,
            None => reported_volume(body@) is None,
        },
{
    let volume = match body.get("volume") {
        Some(v) => match read_percent(v) {
            Some(n) => n,
            None => {
                return None;
            },
        },
        None => {
            return None;
        },
    };
    let flag = match body.get("muted") {
        Some(v) => Some(v),
        None => body.get("mute"),
    };
    let muted = match flag {
        Some(Json::Bool(b)) => *b,
        _ => false,
    };
    let sink_description = match body.str_member("sink_description") {
        Some(s) => Some(s.to_owned()),
        None => None,
    };
    Some(VolumeState { sink_description, volume, muted })
}

/// Follows the system volume that the peer reports.
#[derive(Debug)]
pub struct SystemVolumePlugin {
    state: Option<VolumeState>,
}

impl SystemVolumePlugin {
    /// The latest state.
    pub closed spec fn latest(&self) -> Option<VolumeState<Seq<char>>> {
        match self.state {
            Some(state) => Some(state@),
            None => None,
        }
    }

    /// Create a plugin instance with no volume observed yet.
    pub fn new() -> (r: Self)
        ensures
            r.latest() is None,
    {
        SystemVolumePlugin { state: None }
    }

    /// Latest observed volume state, if any report has arrived.
    pub fn state(&self) -> (r: Option<&VolumeState>)
        ensures
            match r {
                Some(state) => self.latest() == Some(state@),
                None => self.latest() is None,
            },
    {
        match &self.state {
            Some(state) => Some(state),
            None => None,
        }
    }
}

impl Default for SystemVolumePlugin {
    fn default() -> (r: Self)
        ensures
            r.latest() is None,
    {
        SystemVolumePlugin::new()
    }
}

impl Plugin for SystemVolumePlugin {
    open spec fn described(&self) -> MetaView {
        meta::system_volume_view()
    }

    open spec fn standing(&self) -> PluginState {
        PluginState::SystemVolume { latest: self.latest() }
    }

    open spec fn next(&self, pkt: PacketView, env: HostEnv) -> PluginState {
        PluginState::SystemVolume {
            latest: match reported_volume(pkt.body) {
                Some(state) if pkt.ptype == TYPE_SYSTEMVOLUME@ => Some(state),
                _ => self.latest(),
            },
        }
    }

    open spec fn replies(&self, pkt: PacketView, env: HostEnv) -> Seq<ReplyView> {
        Seq::empty()
    }

    open spec fn mirrored(
        &self,
        pkt: PacketView,
        env: HostEnv,
        batteries: Map<Seq<char>, BatteryState>,
    ) -> Map<Seq<char>, BatteryState> {
        batteries
    }

    fn meta(&self) -> (r: PluginMeta) {
        meta::system_volume()
    }

    fn handle(&mut self, pkt: &Packet, host: &mut PluginHost) -> (r: Vec<Packet>) {
        if text::same(pkt.ty(), TYPE_SYSTEMVOLUME) {
            if let Some(state) = extract_state(&pkt.body) {
                self.state = Some(state);
            }
        }
        super::silence(host)
    }
}

/// The body of an outbound volume report.
pub open spec fn volume_json(percent: u8, muted: bool) -> JsonView {
    JsonView::Object(
        Map::<Seq<char>, JsonView>::empty()
            .insert("direction"@, JsonView::Str("in"@))
            .insert("volume"@, JsonView::Int(super::battery::at_most_full(percent as int)))
            .insert("mute"@, JsonView::Bool(muted)),
    )
}

/// Builds an outbound volume report packet, clamping `percent` to `0..=100`.
pub fn volume_report(ids: &mut PacketIds, percent: u8, muted: bool) -> (r: Packet)
    ensures
        r@ == packet::plain_packet(
            packet::successor(old(ids).latest()),
            TYPE_SYSTEMVOLUME@,
            volume_json(percent, muted),
        ),
        final(ids).latest() == r.id,
{
    let volume: u64 = if percent > 100 {
        100
    } else {
        percent as u64
    };
    let body = Record::new()
        .with("direction", Json::text("in"))
        .with("volume", Json::Uint(volume))
        .with("mute", Json::Bool(muted))
        .done();
    Packet::new(ids, TYPE_SYSTEMVOLUME, body)
}

/// A report that was built here is read back as the clamped volume and the
/// flag.
pub proof fn law_volume_report_reads_back(percent: u8, muted: bool)
    ensures
        reported_volume(volume_json(percent, muted)) == Some(
            VolumeState::<Seq<char>> {
                sink_description: None,
                volume: super::battery::at_most_full(percent as int) as u8,
                muted,
            },
        ),
{
    reveal_strlit("direction");
    reveal_strlit("volume");
    reveal_strlit("mute");
    reveal_strlit("muted");
    reveal_strlit("sink_description");
    assert("direction"@.len() == 9 && "volume"@.len() == 6 && "mute"@.len() == 4);
    assert("muted"@.len() == 5 && "sink_description"@.len() == 16);
}

/// Builds [`SystemVolumePlugin`] instances.
#[derive(Debug, Clone, Copy)]
pub struct SystemVolumeFactory;

impl PluginFactory for SystemVolumeFactory {
    open spec fn describes(&self) -> MetaView {
        meta::system_volume_view()
    }

    open spec fn initial(&self) -> PluginState {
        PluginState::SystemVolume { latest: None }
    }

    fn meta(&self) -> (r: PluginMeta) {
        meta::system_volume()
    }

    fn create(&self) -> (r: PluginInstance) {
        PluginInstance::SystemVolume(SystemVolumePlugin::new())
    }
}

/// A report of the peer is kept as it was given: a whole percentage as it is,
/// one out of range at the nearest end of the range, the label of the sink,
/// and the mute flag under either of its names. A report without a number, or
/// a packet of another type, changes nothing.
pub proof fn law_volume_reports_are_kept(
    plugin: SystemVolumePlugin,
    pkt: PacketView,
    env: HostEnv,
    n: int,
    flag: bool,
)
    ensures
        plugin.next(pkt, env) is SystemVolume,
        plugin.replies(pkt, env).len() == 0,
        ({
            let told = pkt.ptype == TYPE_SYSTEMVOLUME@ && json::member(pkt.body, "volume"@) == Some(
                JsonView::Int(n),
            );
            let latest = plugin.next(pkt, env)->SystemVolume_latest;
            &&& told ==> latest is Some
            &&& told ==> latest->0.volume == if n < 0 {
                0
            } else if n > 100 {
                100
            } else {
                n
            }
            &&& told ==> latest->0.sink_description == json::text_at(
                pkt.body,
                "sink_description"@,
            )
            &&& told && json::flag_at(pkt.body, "muted"@) == Some(flag) ==> latest->0.muted == flag
            &&& told && json::member(pkt.body, "muted"@) is None && json::flag_at(
                pkt.body,
                "mute"@,
            ) == Some(flag) ==> latest->0.muted == flag
            &&& told && json::member(pkt.body, "muted"@) is None && json::member(pkt.body, "mute"@)
                is None ==> !latest->0.muted
        }),
        pkt.ptype != TYPE_SYSTEMVOLUME@ || json::member(pkt.body, "volume"@) is None
            ==> plugin.next(pkt, env) == plugin.standing(),
{
}

/// A report that goes out gives the percentage, at most 100, and the flag.
pub proof fn law_volume_reports_say_the_volume(percent: u8, muted: bool)
    ensures
        percent <= 100 ==> json::count_at(volume_json(percent, muted), "volume"@) == Some(
            percent as u64,
        ),
        percent > 100 ==> json::count_at(volume_json(percent, muted), "volume"@) == Some(100u64),
        json::flag_at(volume_json(percent, muted), "mute"@) == Some(muted),
        json::text_at(volume_json(percent, muted), "direction"@) == Some("in"@),
{
    reveal_strlit("direction");
    reveal_strlit("volume");
    reveal_strlit("mute");
    assert("direction"@.len() == 9);
    assert("volume"@.len() == 6);
    assert("mute"@.len() == 4);
}

/// A number between 0 and 100 is rounded to the nearest integer: twice its
/// distance from the result is at most 1. `m` over `d` is the number.
pub proof fn law_percentages_round_to_the_nearest(bits: u64)
    requires
        bits < 0x8000_0000_0000_0000,
        scale(bits) < 0,
        significand(bits) <= 100 * pow2((-scale(bits)) as nat),
    ensures
        ({
            let m = significand(bits);
            let d = pow2((-scale(bits)) as nat) as int;
            let r = rounded_percent(bits);
            &&& 0 <= r <= 100
            &&& 2 * d * r - d <= 2 * m <= 2 * d * r + d
        }),
{
    let m = significand(bits);
    let d = pow2((-scale(bits)) as nat) as int;
    vstd::arithmetic::power2::lemma_pow2_pos((-scale(bits)) as nat);
    assert(0 <= m);
    if m >= 100 * d {
        assert(2 * d * 100 - d <= 2 * m <= 2 * d * 100 + d) by (nonlinear_arith)
            requires
                m == 100 * d,
                d >= 1,
        ;
    } else {
        let r = (2 * m + d) / (2 * d);
        assert(0 <= r <= 100 && 2 * d * r - d <= 2 * m <= 2 * d * r + d) by (nonlinear_arith)
            requires
                r == (2 * m + d) / (2 * d),
                0 <= m < 100 * d,
                d >= 1,
        ;
    }
}

} // verus!
