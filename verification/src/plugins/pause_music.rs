//! Pause-music-on-call logic (`pause_music`).
//!
//! Learns player names from `kdeconnect.mpris` packets flowing by. When a
//! call is active [`PauseMusicPlugin::pause_all`] emits requests that pause
//! every known player, and [`PauseMusicPlugin::resume_all`] replays `Play`
//! for exactly the players that were paused.
use super::battery::BatteryState;
use super::meta;
use super::{
    HostEnv, MetaView, Plugin, PluginFactory, PluginHost, PluginInstance, PluginMeta, PluginState,
    ReplyView,
};
use crate::json;
use crate::json::{Json, JsonView, Record};
use crate::protocol::packet::PacketView;
use crate::ordered;
use crate::ordered::TextSet;
use crate::protocol::{Packet, PacketIds, TYPE_MPRIS, TYPE_MPRIS_REQUEST};
use crate::text;
use vstd::prelude::*;

verus! {

/// Remembers players seen on the wire and which ones were paused.
#[derive(Debug)]
pub struct PauseMusicPlugin {
    known_players: TextSet,
    paused_players: TextSet,
}

/// The body of a transport command.
pub open spec fn transport_json(player: Seq<char>, action: Seq<char>) -> JsonView {
    JsonView::Object(
        Map::<Seq<char>, JsonView>::empty()
            .insert("player"@, JsonView::Str(player))
            .insert("action"@, JsonView::Str(action)),
    )
}

/// One transport command for each player.
pub open spec fn transport_requests(players: Seq<Seq<char>>, action: Seq<char>) -> Seq<ReplyView> {
    players.map_values(
        |p: Seq<char>| ReplyView { ptype: TYPE_MPRIS_REQUEST@, body: transport_json(p, action) },
    )
}

/// The requests that pause the players of a set.
pub open spec fn pause_requests(known: Set<Seq<char>>) -> Seq<ReplyView> {
    transport_requests(ordered::listing(known), "Pause"@)
}

/// The requests that set the players of a set going again.
pub open spec fn resume_requests(paused: Set<Seq<char>>) -> Seq<ReplyView> {
    transport_requests(ordered::listing(paused), "Play"@)
}

/// The players that wait to be resumed once the known ones were paused.
pub open spec fn paused_after_pause(paused: Set<Seq<char>>, known: Set<Seq<char>>) -> Set<
    Seq<char>,
> {
    paused.union(known)
}

/// `known` together with a player name; the empty name is none.
pub open spec fn remembered(known: Set<Seq<char>>, name: Option<Seq<char>>) -> Set<Seq<char>> {
    match name {
        Some(n) if n.len() > 0 => known.insert(n),
        _ => known,
    }
}

/// `known` together with the names that the entries of a player list give.
pub open spec fn listed_players(known: Set<Seq<char>>, list: Seq<JsonView>) -> Set<Seq<char>>
    decreases list.len(),
{
    if list.len() == 0 {
        known
    } else {
        remembered(listed_players(known, list.drop_last()), json::text_at(list.last(), "name"@))
    }
}

/// The players that are known after the body of a state packet.
pub open spec fn learned(known: Set<Seq<char>>, body: JsonView) -> Set<Seq<char>> {
    let listed = match json::list_at(body, "playerList"@) {
        Some(list) => listed_players(known, list),
        None => known,
    };
    remembered(listed, json::text_at(body, "player"@))
}

/// Builds the transport commands for `players`.
fn transport_packets(players: &Vec<String>, action: &str, ids: &mut PacketIds) -> (r: Vec<Packet>)
    ensures
        super::packets_view(r@) == super::numbered(
            transport_requests(text::texts(players@), action@),
            old(ids).latest(),
        ),
        final(ids).latest() == super::advance(old(ids).latest(), players@.len()),
{
    let ghost last = ids.latest();
    let ghost wanted = transport_requests(text::texts(players@), action@);
    let mut out: Vec<Packet> = Vec::new();
    let mut i: usize = 0;
    while i < players.len()
        invariant
            i <= players@.len(),
            wanted == transport_requests(text::texts(players@), action@),
            ids.latest() == super::advance(last, i as nat),
            out@.len() == i,
            forall|j: int|
                0 <= j < i ==> (#[trigger] out@[j])@ == super::numbered(wanted, last)[j],
        decreases players@.len() - i,
    {
        let body = Record::new()
            .with("player", Json::text(players[i].as_str()))
            .with("action", Json::text(action))
            .done();
        let packet = Packet::new(ids, TYPE_MPRIS_REQUEST, body);
        assert(packet@ == super::numbered(wanted, last)[i as int]);
        out.push(packet);
        i += 1;
    }
    assert(super::packets_view(out@) =~= super::numbered(wanted, last));
    out
}

impl PauseMusicPlugin {
    /// The players learned so far.
    pub closed spec fn known(&self) -> Set<Seq<char>> {
        self.known_players@
    }

    /// The players that were paused and not resumed.
    pub closed spec fn paused(&self) -> Set<Seq<char>> {
        self.paused_players@
    }

    /// Create a plugin instance that has seen no players yet.
    pub fn new() -> (r: Self)
        ensures
            r.known() == Set::<Seq<char>>::empty(),
            r.paused() == Set::<Seq<char>>::empty(),
    {
        PauseMusicPlugin { known_players: TextSet::new(), paused_players: TextSet::new() }
    }

    /// Player names learned from passing `kdeconnect.mpris` traffic, in
    /// order.
    pub fn known_players(&self) -> (r: Vec<String>)
        ensures
            ordered::lists(text::texts(r@), self.known()),
            text::texts(r@) == ordered::listing(self.known()),
    {
        self.known_players.to_vec()
    }

    /// Emit `Pause` requests for every known player and remember them so that
    /// a later [`Self::resume_all`] restores precisely this set.
    pub fn pause_all(&mut self, ids: &mut PacketIds) -> (r: Vec<Packet>)
        ensures
            ordered::lists(ordered::listing(old(self).known()), old(self).known()),
            super::packets_view(r@) == super::numbered(
                pause_requests(old(self).known()),
                old(ids).latest(),
            ),
            final(ids).latest() == super::advance(
                old(ids).latest(),
                ordered::listing(old(self).known()).len(),
            ),
            final(self).known() == old(self).known(),
            final(self).paused() == paused_after_pause(old(self).paused(), old(self).known()),
    {
        let targets = self.known_players.to_vec();
        let mut i: usize = 0;
        while i < targets.len()
            invariant
                i <= targets@.len(),
                self.known_players == old(self).known_players,
                self.paused() == old(self).paused().union(
                    text::texts(targets@).take(i as int).to_set(),
                ),
            decreases targets@.len() - i,
        {
            let _ = self.paused_players.insert(targets[i].as_str());
            proof {
                let t = text::texts(targets@);
                assert(t.take(i + 1) =~= t.take(i as int).push(t[i as int]));
                t.take(i as int).lemma_push_to_set_commute(t[i as int]);
                assert(self.paused() =~= old(self).paused().union(t.take(i + 1).to_set()));
            }
            i += 1;
        }
        assert(text::texts(targets@).take(i as int) =~= text::texts(targets@));
        transport_packets(&targets, "Pause", ids)
    }

    /// Emit `Play` requests for the players previously paused by
    /// [`Self::pause_all`], clearing the paused set.
    pub fn resume_all(&mut self, ids: &mut PacketIds) -> (r: Vec<Packet>)
        ensures
            ordered::lists(ordered::listing(old(self).paused()), old(self).paused()),
            super::packets_view(r@) == super::numbered(
                resume_requests(old(self).paused()),
                old(ids).latest(),
            ),
            final(ids).latest() == super::advance(
                old(ids).latest(),
                ordered::listing(old(self).paused()).len(),
            ),
            final(self).known() == old(self).known(),
            final(self).paused() == Set::<Seq<char>>::empty(),
    {
        let targets = self.paused_players.to_vec();
        self.paused_players = TextSet::new();
        transport_packets(&targets, "Play", ids)
    }

    fn learn_players(&mut self, body: &Json)
        ensures
            final(self).known() == learned(old(self).known(), body@),
            final(self).paused() == old(self).paused(),
    {
        if let Some(list) = body.array_member("playerList") {
            let ghost items = json::list_view(list@);
            proof {
                json::lemma_list_view(list@);
                assert(items.take(0) =~= Seq::empty());
            }
            let mut i: usize = 0;
            while i < list.len()
                invariant
                    i <= list@.len(),
                    items == json::list_view(list@),
                    items.len() == list@.len(),
                    forall|j: int| 0 <= j < list@.len() ==> #[trigger] items[j] == list@[j]@,
                    self.known() == listed_players(old(self).known(), items.take(i as int)),
                    self.paused() == old(self).paused(),
                decreases list@.len() - i,
            {
                proof {
                    assert(items.take(i + 1).drop_last() =~= items.take(i as int));
                    assert(items.take(i + 1).last() == items[i as int]);
                }
                if let Some(name) = list[i].str_member("name") {
                    self.remember_player(name);
                }
                i += 1;
            }
            assert(items.take(i as int) =~= items);
        }
        if let Some(name) = body.str_member("player") {
            self.remember_player(name);
        }
    }

    /// Adds a player name; the empty name is ignored.
    pub fn remember_player(&mut self, name: &str)
        ensures
            final(self).known() == remembered(old(self).known(), Some(name@)),
            final(self).paused() == old(self).paused(),
    {
        if !name.is_empty() {
            let _ = self.known_players.insert(name);
        }
    }
}

impl Default for PauseMusicPlugin {
    fn default() -> (r: Self)
        ensures
            r.known() == Set::<Seq<char>>::empty(),
            r.paused() == Set::<Seq<char>>::empty(),
    {
        PauseMusicPlugin::new()
    }
}

impl Plugin for PauseMusicPlugin {
    open spec fn described(&self) -> MetaView {
        meta::pause_music_view()
    }

    open spec fn standing(&self) -> PluginState {
        PluginState::PauseMusic { known: self.known(), paused: self.paused() }
    }

    open spec fn next(&self, pkt: PacketView, env: HostEnv) -> PluginState {
        PluginState::PauseMusic {
            known: if pkt.ptype == TYPE_MPRIS@ {
                learned(self.known(), pkt.body)
            } else {
                self.known()
            },
            paused: self.paused(),
        }
    }

    open spec fn replies(&self, pkt: PacketView, env: HostEnv) -> Seq<ReplyView> {
        Seq::empty()
    }

    open spec fn mirrored(
        &self,
        pkt: PacketView,
        env: HostEnv,
        batteries: Map<Seq<char>, BatteryState>,
    ) -> Map<Seq<char>, BatteryState> {
        batteries
    }

    fn meta(&self) -> (r: PluginMeta) {
        meta::pause_music()
    }

    fn handle(&mut self, pkt: &Packet, host: &mut PluginHost) -> (r: Vec<Packet>) {
        if text::same(pkt.ty(), TYPE_MPRIS) {
            self.learn_players(&pkt.body);
        }
        super::silence(host)
    }
}

/// Pausing twice before a resume resumes each player once, and a resume
/// leaves nothing to resume.
pub proof fn law_repeated_pauses_collapse(paused: Set<Seq<char>>, known: Set<Seq<char>>)
    ensures
        paused.union(known).union(known) == paused.union(known),
        transport_requests(ordered::listing(Set::empty()), "Play"@) == Seq::<ReplyView>::empty(),
{
    assert(paused.union(known).union(known) =~= paused.union(known));
    let none = Seq::<Seq<char>>::empty();
    assert(none.to_set() =~= Set::empty());
    ordered::lemma_listing(none);
    assert(transport_requests(none, "Play"@) =~= Seq::empty());
}

/// Builds [`PauseMusicPlugin`] instances.
#[derive(Debug, Clone, Copy)]
pub struct PauseMusicFactory;

impl PluginFactory for PauseMusicFactory {
    open spec fn describes(&self) -> MetaView {
        meta::pause_music_view()
    }

    open spec fn initial(&self) -> PluginState {
        PluginState::PauseMusic { known: Set::empty(), paused: Set::empty() }
    }

    fn meta(&self) -> (r: PluginMeta) {
        meta::pause_music()
    }

    fn create(&self) -> (r: PluginInstance) {
        PluginInstance::PauseMusic(PauseMusicPlugin::new())
    }
}

/// Pausing addresses every known player once, with the action `Pause`, and
/// resuming addresses every player that was paused once, with the action
/// `Play`; no other player is addressed. `known` and `paused` are finite, as
/// the sets of a plugin are.
pub proof fn law_each_player_is_addressed_once(
    known: Set<Seq<char>>,
    paused: Set<Seq<char>>,
    player: Seq<char>,
)
    requires
        ordered::lists(ordered::listing(known), known),
        ordered::lists(ordered::listing(paused), paused),
    ensures
        known.contains(player) == exists|i: int|
            0 <= i < pause_requests(known).len() && addresses(
                #[trigger] pause_requests(known)[i],
                player,
                "Pause"@,
            ),
        paused.contains(player) == exists|i: int|
            0 <= i < resume_requests(paused).len() && addresses(
                #[trigger] resume_requests(paused)[i],
                player,
                "Play"@,
            ),
        forall|i: int|
            0 <= i < pause_requests(known).len() ==> addresses_one_of(
                #[trigger] pause_requests(known)[i],
                known,
                "Pause"@,
            ),
        forall|i: int|
            0 <= i < resume_requests(paused).len() ==> addresses_one_of(
                #[trigger] resume_requests(paused)[i],
                paused,
                "Play"@,
            ),
        forall|i: int, j: int|
            0 <= i < j < pause_requests(known).len() && addresses(
                #[trigger] pause_requests(known)[i],
                player,
                "Pause"@,
            ) ==> !addresses(#[trigger] pause_requests(known)[j], player, "Pause"@),
        forall|i: int, j: int|
            0 <= i < j < resume_requests(paused).len() && addresses(
                #[trigger] resume_requests(paused)[i],
                player,
                "Play"@,
            ) ==> !addresses(#[trigger] resume_requests(paused)[j], player, "Play"@),
{
    lemma_addressed(ordered::listing(known), known, "Pause"@, player);
    let pause = transport_requests(ordered::listing(known), "Pause"@);
    assert(pause == pause_requests(known));
    if known.contains(player) {
        let i = choose|i: int|
            0 <= i < pause.len() && addresses(#[trigger] pause[i], player, "Pause"@);
        assert(addresses(pause_requests(known)[i], player, "Pause"@));
    }
    lemma_addressed(ordered::listing(paused), paused, "Play"@, player);
    let resume = transport_requests(ordered::listing(paused), "Play"@);
    assert(resume == resume_requests(paused));
    if paused.contains(player) {
        let i = choose|i: int|
            0 <= i < resume.len() && addresses(#[trigger] resume[i], player, "Play"@);
        assert(addresses(resume_requests(paused)[i], player, "Play"@));
    }
}

/// Whether a request tells a player what to do.
pub open spec fn addresses(request: ReplyView, player: Seq<char>, action: Seq<char>) -> bool {
    &&& request.ptype == TYPE_MPRIS_REQUEST@
    &&& json::text_at(request.body, "player"@) == Some(player)
    &&& json::text_at(request.body, "action"@) == Some(action)
}

/// Whether a request tells a player of a set what to do.
pub open spec fn addresses_one_of(
    request: ReplyView,
    players: Set<Seq<char>>,
    action: Seq<char>,
) -> bool {
    exists|p: Seq<char>| players.contains(p) && #[trigger] addresses(request, p, action)
}

proof fn lemma_addressed(
    l: Seq<Seq<char>>,
    s: Set<Seq<char>>,
    action: Seq<char>,
    player: Seq<char>,
)
    requires
        ordered::lists(l, s),
    ensures
        ({
            let out = transport_requests(l, action);
            &&& out.len() == l.len()
            &&& s.contains(player) == exists|i: int|
                0 <= i < out.len() && addresses(#[trigger] out[i], player, action)
            &&& forall|i: int|
                0 <= i < out.len() ==> s.contains(l[i]) && addresses(
                    #[trigger] out[i],
                    l[i],
                    action,
                )
            &&& forall|i: int, p: Seq<char>|
                0 <= i < out.len() && #[trigger] addresses(out[i], p, action) ==> p == l[i]
            &&& forall|i: int, j: int| 0 <= i < j < l.len() ==> l[i] != l[j]
        }),
{
    reveal_strlit("player");
    reveal_strlit("action");
    assert("player"@.len() == 6);
    assert("action"@.len() == 6);
    assert("player"@[0] != "action"@[0]);
    let out = transport_requests(l, action);
    assert forall|i: int| 0 <= i < out.len() implies s.contains(l[i]) && addresses(
        #[trigger] out[i],
        l[i],
        action,
    ) by {
        assert(l.to_set().contains(l[i]));
    }
    if s.contains(player) {
        assert(l.to_set().contains(player));
        let i = choose|i: int| 0 <= i < l.len() && l[i] == player;
        assert(addresses(out[i], player, action));
    }
    assert forall|i: int, j: int| 0 <= i < j < l.len() implies l[i] != l[j] by {
        text::lemma_before_total(l[i], l[j]);
    }
}

/// Whoever was paused is resumed by the next call that resumes, also where
/// players were paused before: nobody is forgotten and nobody else is set
/// going.
pub proof fn law_paused_players_wait_to_be_resumed(
    paused: Set<Seq<char>>,
    known: Set<Seq<char>>,
    player: Seq<char>,
)
    ensures
        paused_after_pause(paused, known).contains(player) == (paused.contains(player)
            || known.contains(player)),
{
}

/// The players that a state packet names are known afterwards: those of its
/// player list and the one that it is about. Known players stay known, nobody
/// else becomes known, and neither other packets nor the empty name teach
/// anything. No packet is answered, and none changes who was paused.
pub proof fn law_players_are_learned_from_their_names(
    plugin: PauseMusicPlugin,
    pkt: PacketView,
    env: HostEnv,
    player: Seq<char>,
)
    ensures
        plugin.replies(pkt, env).len() == 0,
        plugin.next(pkt, env) is PauseMusic,
        plugin.next(pkt, env)->paused == plugin.paused(),
        ({
            let named = player.len() > 0 && pkt.ptype == TYPE_MPRIS@ && (json::text_at(
                pkt.body,
                "player"@,
            ) == Some(player) || (json::list_at(pkt.body, "playerList"@) is Some && exists|i: int|
                0 <= i < json::list_at(pkt.body, "playerList"@)->0.len() && json::text_at(
                    #[trigger] json::list_at(pkt.body, "playerList"@)->0[i],
                    "name"@,
                ) == Some(player)));
            plugin.next(pkt, env)->PauseMusic_known.contains(player) == (plugin.known().contains(
                player,
            ) || named)
        }),
{
    if json::list_at(pkt.body, "playerList"@) is Some {
        lemma_listed(plugin.known(), json::list_at(pkt.body, "playerList"@)->0, player);
    }
}

proof fn lemma_listed(known: Set<Seq<char>>, list: Seq<JsonView>, player: Seq<char>)
    ensures
        listed_players(known, list).contains(player) == (known.contains(player) || (player.len() > 0
            && exists|i: int|
            0 <= i < list.len() && json::text_at(#[trigger] list[i], "name"@) == Some(player))),
    decreases list.len(),
{
    if list.len() > 0 {
        let rest = list.drop_last();
        lemma_listed(known, rest, player);
        assert(forall|i: int| 0 <= i < rest.len() ==> rest[i] == list[i]);
        if exists|i: int|
            0 <= i < list.len() && json::text_at(#[trigger] list[i], "name"@) == Some(player) {
            let i = choose|i: int|
                0 <= i < list.len() && json::text_at(#[trigger] list[i], "name"@) == Some(player);
            if i < rest.len() {
                assert(json::text_at(rest[i], "name"@) == Some(player));
            }
        }
        assert(list.last() == list[list.len() - 1]);
    }
}

} // verus!
