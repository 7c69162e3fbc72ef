//! Telephony plugin: call and SMS events surfacing from the paired phone.
//!
//! Bodies carry `{"event": ..., "phoneNumber": ...}`. The plugin records the
//! most recent event. When configured with
//! [`TelephonyPlugin::with_pause_music`], an incoming ring produces a
//! suggestion to mute music: a `kdeconnect.mpris.request` with the
//! `PlayPause` action and an empty player name.
use super::battery::BatteryState;
use super::meta;
use super::{
    HostEnv, MetaView, Plugin, PluginFactory, PluginHost, PluginInstance, PluginMeta, PluginState,
    ReplyView,
};
use crate::json;
use crate::json::{Json, JsonView, Record};
use crate::protocol::packet::PacketView;
use super::notifications;
use super::pause_music;
use crate::protocol::{Packet, TYPE_MPRIS_REQUEST, TYPE_TELEPHONY};
use crate::text;
use vstd::prelude::*;

verus! {

/// Phone started ringing.
pub const EVENT_RINGING: &'static str = "ringing";

/// Call answered and in progress.
pub const EVENT_TALKING: &'static str = "talking";

/// Call rang out without being answered.
pub const EVENT_MISSED_CALL: &'static str = "missedCall";

/// Inbound text message.
pub const EVENT_SMS: &'static str = "sms";

/// The event that a packet reports: its name and the phone number, which is
/// empty where the phone gave none.
pub open spec fn reported_event(pkt: PacketView) -> Option<(Seq<char>, Seq<char>)> {
    match json::text_at(pkt.body, "event"@) {
        Some(event) if pkt.ptype == TYPE_TELEPHONY@ => Some(
            (event, notifications::text_or_empty(pkt.body, "phoneNumber"@)),
        ),
        _ => None,
    }
}

/// Follows call/SMS events from the phone and suggests muting music on rings.
#[derive(Debug)]
pub struct TelephonyPlugin {
    last_event: Option<(String, String)>,
    pause_music_on_ring: bool,
}

impl TelephonyPlugin {
    /// The latest event: its name and the phone number.
    pub closed spec fn latest(&self) -> Option<(Seq<char>, Seq<char>)> {
        match self.last_event {
            Some((event, number)) => Some((event@, number@)),
            None => None,
        }
    }

    /// Whether a ring produces the suggestion to mute music.
    pub closed spec fn mutes(&self) -> bool {
        self.pause_music_on_ring
    }

    /// Create a plugin instance with no event observed yet and the
    /// suggestion disabled.
    pub fn new() -> (r: Self)
        ensures
            r.latest() is None,
            !r.mutes(),
    {
        TelephonyPlugin { last_event: None, pause_music_on_ring: false }
    }

    /// Enable emitting the mute-music suggestion whenever the phone reports
    /// `ringing`.
    pub fn with_pause_music(self, enabled: bool) -> (r: Self)
        ensures
            r.latest() == self.latest(),
            r.mutes() == enabled,
    {
        TelephonyPlugin { last_event: self.last_event, pause_music_on_ring: enabled }
    }

    /// Consumes the instance and returns the latest event as
    /// `(state, number)`. The number is empty when the phone omitted it.
    pub fn last_event(self) -> (r: Option<(String, String)>)
        ensures
            match r {
                Some((event, number)) => self.latest() == Some((event@, number@)),
                None => self.latest() is None,
            },
    {
        self.last_event
    }

    /// Records the event carried by `pkt`, returning the mute-music
    /// suggestion when applicable.
    fn record(&mut self, pkt: &Packet, host: &mut PluginHost) -> (r: Vec<Packet>)
        requires
            pkt@.ptype == TYPE_TELEPHONY@,
        ensures
            super::packets_view(r@) == super::numbered(
                old(self).replies(pkt@, old(host).env()),
                old(host).ids.latest(),
            ),
            final(host).ids.latest() == super::advance(
                old(host).ids.latest(),
                old(self).replies(pkt@, old(host).env()).len(),
            ),
            final(host).env() == old(host).env(),
            final(host).batteries == old(host).batteries,
            final(self).mutes() == old(self).mutes(),
            final(self).latest() == match reported_event(pkt@) {
                Some(event) => Some(event),
                None => old(self).latest(),
            },
    {
        let event = match pkt.body.str_member("event") {
            Some(event) => event,
            None => {
                return super::silence(host);
            },
        };
        let number = notifications::str_or_empty(&pkt.body, "phoneNumber");
        self.last_event = Some((event.to_owned(), number));
        if text::same(event, EVENT_RINGING) && self.pause_music_on_ring {
            let body = Record::new()
                .with("player", Json::text(""))
                .with("action", Json::text("PlayPause"))
                .done();
            return super::answer(host, TYPE_MPRIS_REQUEST, body);
        }
        super::silence(host)
    }
}

impl Default for TelephonyPlugin {
    fn default() -> (r: Self)
        ensures
            r.latest() is None,
            !r.mutes(),
    {
        TelephonyPlugin::new()
    }
}

impl Plugin for TelephonyPlugin {
    open spec fn described(&self) -> MetaView {
        meta::telephony_view()
    }

    open spec fn standing(&self) -> PluginState {
        PluginState::Telephony { latest: self.latest(), mutes: self.mutes() }
    }

    open spec fn next(&self, pkt: PacketView, env: HostEnv) -> PluginState {
        PluginState::Telephony {
            latest: match reported_event(pkt) {
                Some(event) => Some(event),
                None => self.latest(),
            },
            mutes: self.mutes(),
        }
    }

    open spec fn replies(&self, pkt: PacketView, env: HostEnv) -> Seq<ReplyView> {
        match reported_event(pkt) {
            Some((event, _)) if event == EVENT_RINGING@ && self.mutes() => seq![
                ReplyView {
                    ptype: TYPE_MPRIS_REQUEST@,
                    body: pause_music::transport_json(""@, "PlayPause"@),
                },
            ],
            _ => Seq::empty(),
        }
    }

    open spec fn mirrored(
        &self,
        pkt: PacketView,
        env: HostEnv,
        batteries: Map<Seq<char>, BatteryState>,
    ) -> Map<Seq<char>, BatteryState> {
        batteries
    }

    fn meta(&self) -> (r: PluginMeta) {
        meta::telephony()
    }

    fn handle(&mut self, pkt: &Packet, host: &mut PluginHost) -> (r: Vec<Packet>) {
        if !text::same(pkt.ty(), TYPE_TELEPHONY) {
            return super::silence(host);
        }
        self.record(pkt, host)
    }
}

/// Builds [`TelephonyPlugin`] instances, with the suggestion disabled.
#[derive(Debug, Clone, Copy)]
pub struct TelephonyFactory;

impl PluginFactory for TelephonyFactory {
    open spec fn describes(&self) -> MetaView {
        meta::telephony_view()
    }

    open spec fn initial(&self) -> PluginState {
        PluginState::Telephony { latest: None, mutes: false }
    }

    fn meta(&self) -> (r: PluginMeta) {
        meta::telephony()
    }

    fn create(&self) -> (r: PluginInstance) {
        PluginInstance::Telephony(TelephonyPlugin::new())
    }
}

/// The latest event is the one that the phone reported last, with the number
/// that it gave. The suggestion to mute music comes with a ring and with no
/// other event, and only where it was enabled.
pub proof fn law_calls_are_recorded_as_reported(
    plugin: TelephonyPlugin,
    pkt: PacketView,
    env: HostEnv,
    event: Seq<char>,
)
    ensures
        plugin.next(pkt, env) is Telephony,
        plugin.next(pkt, env)->mutes == plugin.mutes(),
        ({
            let told = pkt.ptype == TYPE_TELEPHONY@ && json::text_at(pkt.body, "event"@) == Some(
                event,
            );
            let latest = plugin.next(pkt, env)->Telephony_latest;
            let out = plugin.replies(pkt, env);
            &&& told ==> (latest matches Some((e, n)) && e == event && (json::text_at(
                pkt.body,
                "phoneNumber"@,
            ) matches Some(number) ==> n == number) && (json::text_at(pkt.body, "phoneNumber"@)
                is None ==> n.len() == 0))
            &&& told && event == "ringing"@ && plugin.mutes() ==> out.len() == 1 && out[0].ptype
                == TYPE_MPRIS_REQUEST@ && json::text_at(out[0].body, "action"@) == Some(
                "PlayPause"@,
            ) && json::text_at(out[0].body, "player"@) == Some(Seq::<char>::empty())
            &&& event != "ringing"@ && told ==> out.len() == 0
        }),
        !plugin.mutes() ==> plugin.replies(pkt, env).len() == 0,
        pkt.ptype != TYPE_TELEPHONY@ || json::text_at(pkt.body, "event"@) is None ==> plugin.next(
            pkt,
            env,
        ) == plugin.standing() && plugin.replies(pkt, env).len() == 0,
{
    reveal_strlit("player");
    reveal_strlit("action");
    assert("player"@.len() == 6);
    assert("action"@.len() == 6);
    assert("player"@[0] != "action"@[0]);
    reveal_strlit("");
    assert(""@ =~= Seq::<char>::empty());
}

} // verus!
