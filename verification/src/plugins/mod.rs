//! Plugin registry and implementations.
//!
//! Plugins are packet transformers: a plugin receives one decoded [`Packet`]
//! at a time and returns zero or more reply packets.
use crate::json::{Json, JsonView};
use crate::protocol::packet;
use crate::protocol::packet::PacketView;
use crate::protocol::{Packet, PacketIds};
use crate::text;
use battery::{BatteryCache, BatteryState};
use share::ShareItem;
use system_volume::VolumeState;
use vstd::prelude::*;

pub mod battery;
pub mod find_my_phone;
pub mod meta;
pub mod mpris;
pub mod notifications;
pub mod pause_music;
pub mod ping;
pub mod registry;
pub mod run_commands;
pub mod share;
pub mod sms;
pub mod stubs;
pub mod system_volume;
pub mod telephony;

pub use ping::{PingFactory, PingPlugin};
pub use registry::{registry, PluginFactory, PluginInstance, RegisteredFactory};

verus! {

/// Capability metadata of a plugin.
#[derive(Debug)]
pub struct PluginMeta {
    /// Canonical identifier used in config files, e.g. `"battery"`.
    pub name: &'static str,
    /// Human-readable label for UI surfaces.
    pub title: &'static str,
    /// `kdeconnect.*` packet types this plugin handles when inbound.
    pub incoming: Vec<&'static str>,
    /// `kdeconnect.*` packet types this plugin may emit outbound.
    pub outgoing: Vec<&'static str>,
    /// Whether the plugin is enabled unless the user opts out.
    pub default_enabled: bool,
    /// True when the plugin needs the Wayland bridge (input, clipboard, idle).
    pub requires_wayland: bool,
    /// True when the plugin needs the desktop DBus session (MPRIS, notifies).
    pub requires_dbus: bool,
}

/// What a plugin's metadata says.
#[verifier::ext_equal]
pub struct MetaView {
    /// Canonical identifier.
    pub name: Seq<char>,
    /// Human-readable label.
    pub title: Seq<char>,
    /// Packet types handled when inbound.
    pub incoming: Seq<Seq<char>>,
    /// Packet types that may be emitted.
    pub outgoing: Seq<Seq<char>>,
    /// Whether the plugin is enabled unless the user opts out.
    pub default_enabled: bool,
    /// Whether the plugin needs the Wayland bridge.
    pub requires_wayland: bool,
    /// Whether the plugin needs the desktop DBus session.
    pub requires_dbus: bool,
}

/// The views of a list of literals.
pub open spec fn literals(v: Seq<&'static str>) -> Seq<Seq<char>> {
    v.map_values(|s: &'static str| s@)
}

impl View for PluginMeta {
    type V = MetaView;

    open spec fn view(&self) -> MetaView {
        MetaView {
            name: self.name@,
            title: self.title@,
            incoming: literals(self.incoming@),
            outgoing: literals(self.outgoing@),
            default_enabled: self.default_enabled,
            requires_wayland: self.requires_wayland,
            requires_dbus: self.requires_dbus,
        }
    }
}

/// What a plugin may use while it handles a packet.
#[derive(Debug)]
pub struct PluginHost {
    /// Source of packet ids.
    pub ids: PacketIds,
    /// Wall-clock time, in milliseconds since the Unix epoch.
    pub now: u64,
    /// What reading the local power supplies gave.
    pub battery: Option<BatteryState>,
    /// Latest battery state of each device.
    pub batteries: BatteryCache,
}

/// What a plugin finds around it when a packet comes.
pub struct HostEnv {
    /// Wall-clock time, in milliseconds since the Unix epoch.
    pub now: u64,
    /// What reading the local power supplies gave.
    pub battery: Option<BatteryState>,
}

impl PluginHost {
    /// What a plugin finds around it.
    pub open spec fn env(&self) -> HostEnv {
        HostEnv { now: self.now, battery: self.battery }
    }

    /// A host that has handed out no packet id and knows no battery.
    pub fn new(now: u64) -> (r: Self)
        ensures
            r.ids.latest() == 0,
            r.env() == (HostEnv { now, battery: None }),
            r.batteries@ == Map::<Seq<char>, BatteryState>::empty(),
    {
        PluginHost { ids: PacketIds::new(), now, battery: None, batteries: BatteryCache::new() }
    }
}

/// What a plugin of any kind holds.
#[verifier::ext_equal]
pub enum PluginState {
    /// A placeholder.
    Stub(MetaView),
    /// Battery status reporting.
    Battery {
        /// Most recent report of the phone.
        latest: Option<BatteryState>,
        /// The device whose reports are mirrored.
        device: Option<Seq<char>>,
        /// What stands in for a reading of the local power supplies.
        probe: Option<Option<BatteryState>>,
    },
    /// Ringing on request.
    FindMyPhone {
        /// Whether a request to ring is active.
        rings: bool,
    },
    /// Media player control.
    Mpris {
        /// The player that was addressed last.
        known: Option<Seq<char>>,
    },
    /// Notification forwarding.
    Notifications {
        /// The ids that were forwarded and not dismissed.
        routed: Set<Seq<char>>,
    },
    /// Pausing music during calls.
    PauseMusic {
        /// The players learned so far.
        known: Set<Seq<char>>,
        /// The players that were paused and not resumed.
        paused: Set<Seq<char>>,
    },
    /// Latency probe.
    Ping {
        /// Time of the most recent ping.
        last: Option<u64>,
    },
    /// Command lookup.
    RunCommands {
        /// The commands by name.
        table: Map<Seq<char>, Seq<char>>,
    },
    /// Share requests.
    Share {
        /// The shares queued and not drained, oldest first.
        pending: Seq<ShareItem<Seq<char>>>,
    },
    /// Volume reports.
    SystemVolume {
        /// Most recent report.
        latest: Option<VolumeState<Seq<char>>>,
    },
    /// Call and SMS events.
    Telephony {
        /// Most recent event and number.
        latest: Option<(Seq<char>, Seq<char>)>,
        /// Whether a ring suggests to pause the music.
        mutes: bool,
    },
}

/// A reply before it gets its packet id.
pub struct ReplyView {
    /// Packet type.
    pub ptype: Seq<char>,
    /// Packet body.
    pub body: JsonView,
}

/// The id that comes `n` ids after `id`.
pub open spec fn advance(id: i64, n: nat) -> i64
    decreases n,
{
    if n == 0 {
        id
    } else {
        packet::successor(advance(id, (n - 1) as nat))
    }
}

/// The packets that carry `replies`, with the ids that follow `last`.
pub open spec fn numbered(replies: Seq<ReplyView>, last: i64) -> Seq<PacketView> {
    Seq::new(
        replies.len(),
        |i: int|
            packet::plain_packet(advance(last, (i + 1) as nat), replies[i].ptype, replies[i].body),
    )
}

/// What a list of packets says.
pub open spec fn packets_view(v: Seq<Packet>) -> Seq<PacketView> {
    v.map_values(|p: Packet| p@)
}

/// No answer.
pub(crate) fn silence(host: &PluginHost) -> (r: Vec<Packet>)
    ensures
        packets_view(r@) == numbered(Seq::empty(), host.ids.latest()),
        advance(host.ids.latest(), 0) == host.ids.latest(),
{
    let r: Vec<Packet> = Vec::new();
    assert(numbered(Seq::empty(), host.ids.latest()) =~= packets_view(r@));
    r
}

/// An answer of one packet.
pub(crate) fn answer(host: &mut PluginHost, ptype: &str, body: Json) -> (r: Vec<Packet>)
    ensures
        packets_view(r@) == numbered(
            seq![ReplyView { ptype: ptype@, body: body@ }],
            old(host).ids.latest(),
        ),
        final(host).ids.latest() == advance(old(host).ids.latest(), 1),
        final(host).env() == old(host).env(),
        final(host).batteries == old(host).batteries,
{
    let ghost last = host.ids.latest();
    let ghost reply = ReplyView { ptype: ptype@, body: body@ };
    let packet = Packet::new(&mut host.ids, ptype, body);
    let mut out: Vec<Packet> = Vec::new();
    out.push(packet);
    proof {
        assert(advance(last, 0) == last);
        assert(advance(last, 1) == packet::successor(last));
        assert(numbered(seq![reply], last) =~= packets_view(out@));
    }
    out
}

/// A packet handler.
pub trait Plugin {
    /// What the metadata of this plugin says.
    spec fn described(&self) -> MetaView;

    /// What this plugin holds.
    spec fn standing(&self) -> PluginState;

    /// What this plugin holds after a packet.
    spec fn next(&self, pkt: PacketView, env: HostEnv) -> PluginState;

    /// What this plugin answers to a packet.
    spec fn replies(&self, pkt: PacketView, env: HostEnv) -> Seq<ReplyView>;

    /// The battery states of the devices after a packet.
    spec fn mirrored(
        &self,
        pkt: PacketView,
        env: HostEnv,
        batteries: Map<Seq<char>, BatteryState>,
    ) -> Map<Seq<char>, BatteryState>;

    /// Metadata describing this plugin kind.
    fn meta(&self) -> (r: PluginMeta)
        ensures
            r@ == self.described(),
    ;

    /// Process one inbound packet; return zero or more outbound replies.
    fn handle(&mut self, pkt: &Packet, host: &mut PluginHost) -> (r: Vec<Packet>)
        ensures
            final(self).described() == old(self).described(),
            final(self).standing() == old(self).next(pkt@, old(host).env()),
            packets_view(r@) == numbered(
                old(self).replies(pkt@, old(host).env()),
                old(host).ids.latest(),
            ),
            final(host).ids.latest() == advance(
                old(host).ids.latest(),
                old(self).replies(pkt@, old(host).env()).len(),
            ),
            final(host).env() == old(host).env(),
            final(host).batteries@ == old(self).mirrored(
                pkt@,
                old(host).env(),
                old(host).batteries@,
            ),
    ;
}

/// Replies go out in their order, each with its own type and content, and
/// with ids that follow one another.
pub proof fn law_replies_are_numbered_in_order(replies: Seq<ReplyView>, last: i64, i: int)
    requires
        0 <= i < replies.len(),
    ensures
        numbered(replies, last).len() == replies.len(),
        numbered(replies, last)[i].ptype == replies[i].ptype,
        numbered(replies, last)[i].body == replies[i].body,
        numbered(replies, last)[i].payload_size is None,
        i == 0 ==> numbered(replies, last)[i].id == packet::successor(last),
        i > 0 ==> numbered(replies, last)[i].id == packet::successor(
            numbered(replies, last)[i - 1].id,
        ),
{
    assert(advance(last, 0) == last);
    assert(advance(last, (i + 1) as nat) == packet::successor(advance(last, i as nat)));
}

} // verus!
