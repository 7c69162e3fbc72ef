//! MPRIS media transport control.
//!
//! Consumes `kdeconnect.mpris.request` packets whose body carries a
//! `"player"` name and an `"action"` string. Valid requests are answered with
//! an echo (`ack: true`) carrying the resolved player and the action. The
//! pseudo-player `"auto"` is resolved against the most recently seen concrete
//! player name. Anything else yields no replies.
use super::battery::BatteryState;
use super::meta;
use super::{
    HostEnv, MetaView, Plugin, PluginFactory, PluginHost, PluginInstance, PluginMeta, PluginState,
    ReplyView,
};
use crate::json;
use crate::json::{Json, JsonView, Record};
use crate::protocol::packet::PacketView;
use crate::protocol::{Packet, TYPE_MPRIS_REQUEST};
use crate::text;
use vstd::prelude::*;

verus! {

/// Pseudo-player name that stands for the player seen last.
pub const AUTO_PLAYER: &'static str = "auto";

/// A validated MPRIS transport action. String forms are case-sensitive.
#[derive(Debug, Clone, Copy, PartialEq, Eq)]
pub enum MprisAction {
    /// Start playback.
    Play,
    /// Suspend playback.
    Pause,
    /// Toggle between playing and paused.
    PlayPause,
    /// Halt playback and reset position.
    Stop,
    /// Skip to the next track.
    Next,
    /// Return to the previous track.
    Previous,
}

impl MprisAction {
    /// Wire-format name of this action.
    pub open spec fn wire(self) -> Seq<char> {
        match self {
            MprisAction::Play => "Play"@,
            MprisAction::Pause => "Pause"@,
            MprisAction::PlayPause => "PlayPause"@,
            MprisAction::Stop => "Stop"@,
            MprisAction::Next => "Next"@,
            MprisAction::Previous => "Previous"@,
        }
    }

    /// Wire-format name of this action.
    pub fn as_str(self) -> (r: &'static str)
        ensures
            r@ == self.wire(),
    {
        match self {
            MprisAction::Play => "Play",
            MprisAction::Pause => "Pause",
            MprisAction::PlayPause => "PlayPause",
            MprisAction::Stop => "Stop",
            MprisAction::Next => "Next",
            MprisAction::Previous => "Previous",
        }
    }

    /// Parses a wire-format action string, returning [`None`] for anything
    /// outside the six names.
    pub fn parse(s: &str) -> (r: Option<Self>)
        ensures
            match r {
                Some(action) => action.wire() == s@,
                None => forall|action: MprisAction| #[trigger] action.wire() != s@,
            },
    {
        if text::same(s, "Play") {
            Some(MprisAction::Play)
        } else if text::same(s, "Pause") {
            Some(MprisAction::Pause)
        } else if text::same(s, "PlayPause") {
            Some(MprisAction::PlayPause)
        } else if text::same(s, "Stop") {
            Some(MprisAction::Stop)
        } else if text::same(s, "Next") {
            Some(MprisAction::Next)
        } else if text::same(s, "Previous") {
            Some(MprisAction::Previous)
        } else {
            None
        }
    }
}

/// Different actions have different names, so that parsing a name gives back
/// the action it stands for.
pub proof fn law_action_names_are_distinct(a: MprisAction, b: MprisAction)
    requires
        a.wire() == b.wire(),
    ensures
        a == b,
{
    reveal_strlit("Play");
    reveal_strlit("Pause");
    reveal_strlit("PlayPause");
    reveal_strlit("Stop");
    reveal_strlit("Next");
    reveal_strlit("Previous");
    assert("Play"@.len() == 4 && "Pause"@.len() == 5 && "PlayPause"@.len() == 9);
    assert("Stop"@.len() == 4 && "Next"@.len() == 4 && "Previous"@.len() == 8);
    assert("Play"@[0] != "Stop"@[0] && "Play"@[0] != "Next"@[0] && "Stop"@[0] != "Next"@[0]);
}

/// Whether some action has this name.
pub open spec fn is_action(name: Seq<char>) -> bool {
    exists|action: MprisAction| #[trigger] action.wire() == name
}

/// The player that a request is for, if the request is valid; `known` is the
/// player seen last.
pub open spec fn resolved_player(pkt: PacketView, known: Option<Seq<char>>) -> Option<Seq<char>> {
    match (json::text_at(pkt.body, "player"@), json::text_at(pkt.body, "action"@)) {
        (Some(player), Some(action)) => if pkt.ptype != TYPE_MPRIS_REQUEST@ || !is_action(action) {
            None
        } else if player == AUTO_PLAYER@ {
            known
        } else {
            Some(player)
        },
        _ => None,
    }
}

/// The acknowledgement of a transport request.
pub open spec fn ack_json(player: Seq<char>, action: Seq<char>) -> JsonView {
    JsonView::Object(
        Map::<Seq<char>, JsonView>::empty()
            .insert("player"@, JsonView::Str(player))
            .insert("action"@, JsonView::Str(action))
            .insert("ack"@, JsonView::Bool(true)),
    )
}

/// Answers validated `kdeconnect.mpris.request` transport commands.
#[derive(Debug)]
pub struct MprisPlugin {
    last_known_player: Option<String>,
}

impl MprisPlugin {
    /// The concrete player requested last.
    pub closed spec fn known(&self) -> Option<Seq<char>> {
        super::battery::optional_text(self.last_known_player)
    }

    /// Create a plugin instance with no players observed yet.
    pub fn new() -> (r: Self)
        ensures
            r.known() is None,
    {
        MprisPlugin { last_known_player: None }
    }

    /// Most recently requested concrete player name, used to resolve
    /// `"auto"` targets.
    pub fn last_known_player(&self) -> (r: Option<&str>)
        ensures
            match r {
                Some(player) => self.known() == Some(player@),
                None => self.known() is None,
            },
    {
        match &self.last_known_player {
            Some(player) => Some(player.as_str()),
            None => None,
        }
    }

    fn handle_request(&mut self, pkt: &Packet, host: &mut PluginHost) -> (r: Vec<Packet>)
        requires
            pkt@.ptype == TYPE_MPRIS_REQUEST@,
        ensures
            super::packets_view(r@) == super::numbered(
                old(self).replies(pkt@, old(host).env()),
                old(host).ids.latest(),
            ),
            final(host).ids.latest() == super::advance(
                old(host).ids.latest(),
                old(self).replies(pkt@, old(host).env()).len(),
            ),
            final(host).env() == old(host).env(),
            final(host).batteries == old(host).batteries,
            final(self).known() == match resolved_player(pkt@, old(self).known()) {
                Some(player) => Some(player),
                None => old(self).known(),
            },
    {
        let player = match pkt.body.str_member("player") {
            Some(player) => player,
            None => {
                return super::silence(host);
            },
        };
        let raw_action = match pkt.body.str_member("action") {
            Some(action) => action,
            None => {
                return super::silence(host);
            },
        };
        let action = match MprisAction::parse(raw_action) {
            Some(action) => action,
            None => {
                return super::silence(host);
            },
        };
        assert(is_action(raw_action@));
        let resolved = if text::same(player, AUTO_PLAYER) {
            match &self.last_known_player {
                Some(known) => known.clone(),
                None => {
                    return super::silence(host);
                },
            }
        } else {
            player.to_owned()
        };
        let body = Record::new()
            .with("player", Json::text(resolved.as_str()))
            .with("action", Json::text(action.as_str()))
            .with("ack", Json::Bool(true))
            .done();
        self.last_known_player = Some(resolved);
        super::answer(host, TYPE_MPRIS_REQUEST, body)
    }
}

impl Default for MprisPlugin {
    fn default() -> (r: Self)
        ensures
            r.known() is None,
    {
        MprisPlugin::new()
    }
}

impl Plugin for MprisPlugin {
    open spec fn described(&self) -> MetaView {
        meta::mpris_view()
    }

    open spec fn standing(&self) -> PluginState {
        PluginState::Mpris { known: self.known() }
    }

    open spec fn next(&self, pkt: PacketView, env: HostEnv) -> PluginState {
        PluginState::Mpris {
            known: match resolved_player(pkt, self.known()) {
                Some(player) => Some(player),
                None => self.known(),
            },
        }
    }

    open spec fn replies(&self, pkt: PacketView, env: HostEnv) -> Seq<ReplyView> {
        match resolved_player(pkt, self.known()) {
            Some(player) => seq![
                ReplyView {
                    ptype: TYPE_MPRIS_REQUEST@,
                    body: ack_json(player, json::text_at(pkt.body, "action"@)->0),
                },
            ],
            None => Seq::empty(),
        }
    }

    open spec fn mirrored(
        &self,
        pkt: PacketView,
        env: HostEnv,
        batteries: Map<Seq<char>, BatteryState>,
    ) -> Map<Seq<char>, BatteryState> {
        batteries
    }

    fn meta(&self) -> (r: PluginMeta) {
        meta::mpris()
    }

    fn handle(&mut self, pkt: &Packet, host: &mut PluginHost) -> (r: Vec<Packet>) {
        if !text::same(pkt.ty(), TYPE_MPRIS_REQUEST) {
            return super::silence(host);
        }
        self.handle_request(pkt, host)
    }
}

/// Builds [`MprisPlugin`] instances.
#[derive(Debug, Clone, Copy)]
pub struct MprisFactory;

impl PluginFactory for MprisFactory {
    open spec fn describes(&self) -> MetaView {
        meta::mpris_view()
    }

    open spec fn initial(&self) -> PluginState {
        PluginState::Mpris { known: None }
    }

    fn meta(&self) -> (r: PluginMeta) {
        meta::mpris()
    }

    fn create(&self) -> (r: PluginInstance) {
        PluginInstance::Mpris(MprisPlugin::new())
    }
}

/// A request is valid where it names one of the six actions.
pub proof fn law_six_actions_are_known(name: Seq<char>)
    ensures
        is_action(name) == (name == "Play"@ || name == "Pause"@ || name == "PlayPause"@ || name
            == "Stop"@ || name == "Next"@ || name == "Previous"@),
        MprisAction::Play.wire() == "Play"@,
        MprisAction::Pause.wire() == "Pause"@,
        MprisAction::PlayPause.wire() == "PlayPause"@,
        MprisAction::Stop.wire() == "Stop"@,
        MprisAction::Next.wire() == "Next"@,
        MprisAction::Previous.wire() == "Previous"@,
{
    assert(MprisAction::Play.wire() == "Play"@);
    assert(MprisAction::Pause.wire() == "Pause"@);
    assert(MprisAction::PlayPause.wire() == "PlayPause"@);
    assert(MprisAction::Stop.wire() == "Stop"@);
    assert(MprisAction::Next.wire() == "Next"@);
    assert(MprisAction::Previous.wire() == "Previous"@);
}

/// A valid request for a player is acknowledged with that player and that
/// action, and the player is the one that `"auto"` stands for from now on. A
/// request for `"auto"` goes to the player seen last, and where none was seen
/// it is dropped. Every other packet is dropped and changes nothing.
pub proof fn law_requests_reach_their_player(
    plugin: MprisPlugin,
    pkt: PacketView,
    env: HostEnv,
    player: Seq<char>,
    action: Seq<char>,
)
    ensures
        ({
            let asked = pkt.ptype == TYPE_MPRIS_REQUEST@ && json::text_at(pkt.body, "player"@)
                == Some(player) && json::text_at(pkt.body, "action"@) == Some(action) && is_action(
                action,
            );
            let out = plugin.replies(pkt, env);
            let meant = if player == "auto"@ {
                plugin.known()
            } else {
                Some(player)
            };
            &&& asked ==> (meant matches Some(p) ==> {
                &&& out.len() == 1
                &&& out[0].ptype == TYPE_MPRIS_REQUEST@
                &&& json::text_at(out[0].body, "player"@) == Some(p)
                &&& json::text_at(out[0].body, "action"@) == Some(action)
                &&& json::flag_at(out[0].body, "ack"@) == Some(true)
                &&& plugin.next(pkt, env) matches PluginState::Mpris { known } && known == Some(p)
            })
            &&& asked && meant is None ==> out.len() == 0 && plugin.next(pkt, env)
                == plugin.standing()
        }),
        pkt.ptype != TYPE_MPRIS_REQUEST@ || json::text_at(pkt.body, "player"@) is None
            || json::text_at(pkt.body, "action"@) is None || !is_action(
            json::text_at(pkt.body, "action"@)->0,
        ) ==> plugin.replies(pkt, env).len() == 0 && plugin.next(pkt, env) == plugin.standing(),
{
    lemma_ack_keys();
}

/// The names differ from one another.
proof fn lemma_ack_keys()
    ensures
        "player"@ != "action"@,
        "player"@ != "ack"@,
        "action"@ != "ack"@,
{
    reveal_strlit("player");
    reveal_strlit("action");
    reveal_strlit("ack");
    assert("player"@.len() == 6);
    assert("action"@.len() == 6);
    assert("ack"@.len() == 3);
    assert("player"@[0] != "action"@[0]);
}

} // verus!
