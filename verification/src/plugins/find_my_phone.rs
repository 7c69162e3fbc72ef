//! Find-my-phone responder (`findmyphone`).
//!
//! Receives requests whose body carries `{"action":"start"|"stop"}`. A
//! `start` sets the plugin ringing, a `stop` silences it; both echo the
//! request back as acknowledgement. Anything else is dropped.
use super::battery::BatteryState;
use super::meta;
use super::{
    HostEnv, MetaView, Plugin, PluginFactory, PluginHost, PluginInstance, PluginMeta, PluginState,
    ReplyView,
};
use crate::json;
use crate::json::{Json, JsonView, Record};
use crate::protocol::packet::PacketView;
use crate::protocol::{Packet, TYPE_FINDMYPHONE};
use crate::text;
use vstd::prelude::*;

verus! {

/// Acknowledges ring requests from the paired device.
#[derive(Debug)]
pub struct FindMyPhonePlugin {
    ringing: bool,
}

/// The ringing state that a request asks for, if it is recognized.
pub open spec fn wanted_ringing(pkt: PacketView) -> Option<bool> {
    match json::text_at(pkt.body, "action"@) {
        Some(action) => if pkt.ptype != TYPE_FINDMYPHONE@ {
            None
        } else if action == "start"@ {
            Some(true)
        } else if action == "stop"@ {
            Some(false)
        } else {
            None
        },
        None => None,
    }
}

impl FindMyPhonePlugin {
    /// Whether a `start` request is active.
    pub closed spec fn rings(&self) -> bool {
        self.ringing
    }

    /// Create a plugin instance that is not ringing.
    pub fn new() -> (r: Self)
        ensures
            !r.rings(),
    {
        FindMyPhonePlugin { ringing: false }
    }

    /// Whether a `start` request is currently active.
    pub fn is_ringing(&self) -> (r: bool)
        ensures
            r == self.rings(),
    {
        self.ringing
    }
}

impl Default for FindMyPhonePlugin {
    fn default() -> (r: Self)
        ensures
            !r.rings(),
    {
        FindMyPhonePlugin::new()
    }
}

impl Plugin for FindMyPhonePlugin {
    open spec fn described(&self) -> MetaView {
        meta::findmyphone_view()
    }

    open spec fn standing(&self) -> PluginState {
        PluginState::FindMyPhone { rings: self.rings() }
    }

    open spec fn next(&self, pkt: PacketView, env: HostEnv) -> PluginState {
        PluginState::FindMyPhone {
            rings: match wanted_ringing(pkt) {
                Some(ringing) => ringing,
                None => self.rings(),
            },
        }
    }

    open spec fn replies(&self, pkt: PacketView, env: HostEnv) -> Seq<ReplyView> {
        match wanted_ringing(pkt) {
            Some(_) => seq![ReplyView { ptype: TYPE_FINDMYPHONE@, body: pkt.body }],
            None => Seq::empty(),
        }
    }

    open spec fn mirrored(
        &self,
        pkt: PacketView,
        env: HostEnv,
        batteries: Map<Seq<char>, BatteryState>,
    ) -> Map<Seq<char>, BatteryState> {
        batteries
    }

    fn meta(&self) -> (r: PluginMeta) {
        meta::findmyphone()
    }

    fn handle(&mut self, pkt: &Packet, host: &mut PluginHost) -> (r: Vec<Packet>) {
        if !text::same(pkt.ty(), TYPE_FINDMYPHONE) {
            return super::silence(host);
        }
        let action = match pkt.body.str_member("action") {
            Some(action) => action,
            None => {
                return super::silence(host);
            },
        };
        if text::same(action, "start") {
            self.ringing = true;
        } else if text::same(action, "stop") {
            self.ringing = false;
        } else {
            return super::silence(host);
        }
        super::answer(host, TYPE_FINDMYPHONE, pkt.body.clone())
    }
}

/// Builds [`FindMyPhonePlugin`] instances.
#[derive(Debug, Clone, Copy)]
pub struct FindMyPhoneFactory;

impl PluginFactory for FindMyPhoneFactory {
    open spec fn describes(&self) -> MetaView {
        meta::findmyphone_view()
    }

    open spec fn initial(&self) -> PluginState {
        PluginState::FindMyPhone { rings: false }
    }

    fn meta(&self) -> (r: PluginMeta) {
        meta::findmyphone()
    }

    fn create(&self) -> (r: PluginInstance) {
        PluginInstance::FindMyPhone(FindMyPhonePlugin::new())
    }
}

/// A request to start makes the device ring and one to stop makes it fall
/// silent, whatever it did before; both are acknowledged by sending the
/// request back. Any other packet changes nothing and is not answered.
pub proof fn law_ringing_follows_the_last_request(
    plugin: FindMyPhonePlugin,
    pkt: PacketView,
    env: HostEnv,
)
    ensures
        plugin.next(pkt, env) is FindMyPhone,
        ({
            let asked = |action: Seq<char>|
                pkt.ptype == TYPE_FINDMYPHONE@ && json::text_at(pkt.body, "action"@) == Some(
                    action,
                );
            let out = plugin.replies(pkt, env);
            &&& asked("start"@) ==> plugin.next(pkt, env)->rings
            &&& asked("stop"@) ==> !plugin.next(pkt, env)->rings
            &&& asked("start"@) || asked("stop"@) ==> out.len() == 1 && out[0].ptype == pkt.ptype
                && out[0].body == pkt.body
            &&& !asked("start"@) && !asked("stop"@) ==> out.len() == 0 && plugin.next(pkt, env)
                == plugin.standing()
        }),
{
    reveal_strlit("start");
    reveal_strlit("stop");
    assert("start"@.len() == 5 && "stop"@.len() == 4);
}

} // verus!
