//! Ping plugin.
//!
//! Replies to every inbound `kdeconnect.ping` with an outbound
//! `kdeconnect.ping`, and records the time of the most recent inbound ping.
use super::battery::BatteryState;
use super::meta;
use super::{
    HostEnv, MetaView, Plugin, PluginFactory, PluginHost, PluginInstance, PluginMeta, PluginState,
    ReplyView,
};
use crate::json::{JsonView, Record};
use crate::protocol::packet::PacketView;
use crate::protocol::{Packet, TYPE_PING};
use crate::text;
use vstd::prelude::*;

verus! {

/// Echoes `kdeconnect.ping` packets back to the sender.
#[derive(Debug)]
pub struct PingPlugin {
    last_ping_at: Option<u64>,
}

impl PingPlugin {
    /// Time of the most recent inbound ping.
    pub closed spec fn last(&self) -> Option<u64> {
        self.last_ping_at
    }

    /// Create a plugin instance with no pings observed yet.
    pub fn new() -> (r: Self)
        ensures
            r.last() is None,
    {
        PingPlugin { last_ping_at: None }
    }

    /// Wall-clock time of the most recent inbound ping, if any.
    pub fn last_ping_at(&self) -> (r: Option<u64>)
        ensures
            r == self.last(),
    {
        self.last_ping_at
    }
}

impl Default for PingPlugin {
    fn default() -> (r: Self)
        ensures
            r.last() is None,
    {
        PingPlugin::new()
    }
}

impl Plugin for PingPlugin {
    open spec fn described(&self) -> MetaView {
        meta::ping_view()
    }

    open spec fn standing(&self) -> PluginState {
        PluginState::Ping { last: self.last() }
    }

    open spec fn next(&self, pkt: PacketView, env: HostEnv) -> PluginState {
        PluginState::Ping {
            last: if pkt.ptype == TYPE_PING@ {
                Some(env.now)
            } else {
                self.last()
            },
        }
    }

    open spec fn replies(&self, pkt: PacketView, env: HostEnv) -> Seq<ReplyView> {
        if pkt.ptype == TYPE_PING@ {
            seq![ReplyView { ptype: TYPE_PING@, body: JsonView::Object(Map::empty()) }]
        } else {
            Seq::empty()
        }
    }

    open spec fn mirrored(
        &self,
        pkt: PacketView,
        env: HostEnv,
        batteries: Map<Seq<char>, BatteryState>,
    ) -> Map<Seq<char>, BatteryState> {
        batteries
    }

    fn meta(&self) -> (r: PluginMeta) {
        meta::ping()
    }

    fn handle(&mut self, pkt: &Packet, host: &mut PluginHost) -> (r: Vec<Packet>) {
        if !text::same(pkt.ty(), TYPE_PING) {
            return super::silence(host);
        }
        self.last_ping_at = Some(host.now);
        super::answer(host, TYPE_PING, Record::new().done())
    }
}

/// Builds [`PingPlugin`] instances.
#[derive(Debug, Clone, Copy)]
pub struct PingFactory;

impl PluginFactory for PingFactory {
    open spec fn describes(&self) -> MetaView {
        meta::ping_view()
    }

    open spec fn initial(&self) -> PluginState {
        PluginState::Ping { last: None }
    }

    fn meta(&self) -> (r: PluginMeta) {
        meta::ping()
    }

    fn create(&self) -> (r: PluginInstance) {
        PluginInstance::Ping(PingPlugin::new())
    }
}

/// Every ping is answered with one ping that carries nothing, and the time at
/// which it came is remembered. Nothing else is answered or remembered.
pub proof fn law_pings_are_answered(plugin: PingPlugin, pkt: PacketView, env: HostEnv)
    ensures
        pkt.ptype == TYPE_PING@ ==> {
            &&& plugin.replies(pkt, env).len() == 1
            &&& plugin.replies(pkt, env)[0].ptype == pkt.ptype
            &&& plugin.replies(pkt, env)[0].body matches JsonView::Object(m) && m.dom()
                =~= Set::empty()
            &&& plugin.next(pkt, env) matches PluginState::Ping { last } && last == Some(env.now)
        },
        pkt.ptype != TYPE_PING@ ==> plugin.replies(pkt, env).len() == 0 && plugin.next(pkt, env)
            == plugin.standing(),
{
}

} // verus!
