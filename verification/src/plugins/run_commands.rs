//! Run-commands plugin (`run_commands`).
//!
//! Keeps a name-to-command table seeded via
//! [`RunCommandsPlugin::set_commands`] and refreshed whenever the peer
//! broadcasts a command list of the form
//! `{"commandList": [{"name": "...", "command": "..."}, ...]}`.
//!
//! A request naming a known command returns one echo packet carrying both the
//! name and the resolved command; this plugin never runs anything itself.
use super::battery::BatteryState;
use super::meta;
use super::{
    HostEnv, MetaView, Plugin, PluginFactory, PluginHost, PluginInstance, PluginMeta, PluginState,
    ReplyView,
};
use crate::json;
use crate::json::{Json, JsonView, Record};
use crate::protocol::packet;
use crate::protocol::packet::PacketView;
use crate::ordered::TextMap;
use crate::protocol::{Packet, PacketIds, TYPE_RUNCOMMAND, TYPE_RUNCOMMAND_REQUEST};
use crate::text;
use vstd::prelude::*;

verus! {

/// What a table of commands says.
pub open spec fn table_view(m: Map<Seq<char>, String>) -> Map<Seq<char>, Seq<char>> {
    m.map_values(|s: String| s@)
}

/// The table that a list of pairs makes; later pairs win.
pub open spec fn pairs_table(pairs: Seq<(String, String)>) -> Map<Seq<char>, Seq<char>>
    decreases pairs.len(),
{
    if pairs.len() == 0 {
        Map::empty()
    } else {
        pairs_table(pairs.drop_last()).insert(pairs.last().0@, pairs.last().1@)
    }
}

/// A text that is there and not empty.
pub open spec fn usable_text(j: JsonView, key: Seq<char>) -> Option<Seq<char>> {
    match json::text_at(j, key) {
        Some(s) if s.len() > 0 => Some(s),
        _ => None,
    }
}

/// The command that an entry of a command list gives: an object with `name`
/// and `command`, neither of them empty.
pub open spec fn entry_command(entry: JsonView) -> Option<(Seq<char>, Seq<char>)> {
    match (usable_text(entry, "name"@), usable_text(entry, "command"@)) {
        (Some(name), Some(command)) => Some((name, command)),
        _ => None,
    }
}

/// The table that a command list gives; unusable entries are skipped and
/// later entries win.
pub open spec fn list_table(list: Seq<JsonView>) -> Map<Seq<char>, Seq<char>>
    decreases list.len(),
{
    if list.len() == 0 {
        Map::empty()
    } else {
        match entry_command(list.last()) {
            Some((name, command)) => list_table(list.drop_last()).insert(name, command),
            None => list_table(list.drop_last()),
        }
    }
}

/// The table after a packet: a command list replaces it, unless the list has
/// entries and none of them is usable.
pub open spec fn table_after(
    table: Map<Seq<char>, Seq<char>>,
    pkt: PacketView,
) -> Map<Seq<char>, Seq<char>> {
    match json::list_at(pkt.body, "commandList"@) {
        Some(list) if pkt.ptype == TYPE_RUNCOMMAND@ && (list.len() == 0 || list_table(list)
            != Map::<Seq<char>, Seq<char>>::empty()) => list_table(list),
        _ => table,
    }
}

/// The confirmation of a request.
pub open spec fn confirmation_json(name: Seq<char>, command: Seq<char>) -> JsonView {
    JsonView::Object(
        Map::<Seq<char>, JsonView>::empty()
            .insert("name"@, JsonView::Str(name))
            .insert("command"@, JsonView::Str(command)),
    )
}

/// Resolves `kdeconnect.runcommand.request` names against a command table.
#[derive(Debug)]
pub struct RunCommandsPlugin {
    commands: TextMap<String>,
}

fn usable_str<'a>(j: &'a Json, key: &str) -> (r: Option<&'a str>)
    ensures
        match r {
            Some(s) => usable_text(j@, key@) == Some(s@),
            None => usable_text(j@, key@) is None,
        },
{
    match j.str_member(key) {
        Some(s) => if s.is_empty() {
            None
        } else {
            Some(s)
        },
        None => None,
    }
}

/// Extracts a usable `(name, command)` pair from one entry of a command list.
fn parse_entry(entry: &Json) -> (r: Option<(String, String)>)
    ensures
        match r {
            Some((name, command)) => entry_command(entry@) == Some((name@, command@)),
            None => entry_command(entry@) is None,
        },
{
    match (usable_str(entry, "name"), usable_str(entry, "command")) {
        (Some(name), Some(command)) => Some((name.to_owned(), command.to_owned())),
        _ => None,
    }
}

impl RunCommandsPlugin {
    /// What the command table says.
    pub closed spec fn table(&self) -> Map<Seq<char>, Seq<char>> {
        table_view(self.commands@)
    }

    /// Create a plugin instance with an empty command table.
    pub fn new() -> (r: Self)
        ensures
            r.table() == Map::<Seq<char>, Seq<char>>::empty(),
    {
        let r = RunCommandsPlugin { commands: TextMap::new() };
        assert(r.table() =~= Map::<Seq<char>, Seq<char>>::empty());
        r
    }

    /// Replaces the table with the provided list. Later entries win when the
    /// same name appears more than once.
    pub fn set_commands(&mut self, commands: Vec<(String, String)>)
        ensures
            final(self).table() == pairs_table(commands@),
    {
        let mut table: TextMap<String> = TextMap::new();
        assert(table_view(table@) =~= Map::<Seq<char>, Seq<char>>::empty());
        let mut i: usize = 0;
        while i < commands.len()
            invariant
                i <= commands@.len(),
                table_view(table@) == pairs_table(commands@.take(i as int)),
            decreases commands@.len() - i,
        {
            let pair = &commands[i];
            let ghost before = table@;
            let _ = table.insert(pair.0.clone(), pair.1.clone());
            proof {
                assert(commands@.take(i + 1).drop_last() =~= commands@.take(i as int));
                assert(table_view(table@) =~= table_view(before).insert(pair.0@, pair.1@));
            }
            i += 1;
        }
        assert(commands@.take(i as int) =~= commands@);
        self.commands = table;
    }

    /// Read-only view of the current table.
    pub fn commands(&self) -> (r: &TextMap<String>)
        ensures
            table_view(r@) == self.table(),
    {
        &self.commands
    }

    fn handle_sync(&mut self, pkt: &Packet)
        requires
            pkt@.ptype == TYPE_RUNCOMMAND@,
        ensures
            final(self).table() == table_after(old(self).table(), pkt@),
    {
        let entries = match pkt.body.array_member("commandList") {
            Some(entries) => entries,
            None => {
                return ;
            },
        };
        let ghost items = json::list_view(entries@);
        let mut synced: TextMap<String> = TextMap::new();
        proof {
            json::lemma_list_view(entries@);
            assert(table_view(synced@) =~= Map::<Seq<char>, Seq<char>>::empty());
            assert(items.take(0) =~= Seq::empty());
        }
        let mut i: usize = 0;
        while i < entries.len()
            invariant
                i <= entries@.len(),
                items == json::list_view(entries@),
                items.len() == entries@.len(),
                forall|j: int| 0 <= j < entries@.len() ==> #[trigger] items[j] == entries@[j]@,
                table_view(synced@) == list_table(items.take(i as int)),
            decreases entries@.len() - i,
        {
            let ghost before = synced@;
            proof {
                assert(items.take(i + 1).drop_last() =~= items.take(i as int));
                assert(items.take(i + 1).last() == items[i as int]);
            }
            if let Some((name, command)) = parse_entry(&entries[i]) {
                let ghost (n, c) = (name@, command@);
                let _ = synced.insert(name, command);
                assert(table_view(synced@) =~= table_view(before).insert(n, c));
            }
            i += 1;
        }
        let nothing = synced.is_empty();
        proof {
            assert(items.take(i as int) =~= items);
            if nothing {
                assert(table_view(synced@) =~= Map::<Seq<char>, Seq<char>>::empty());
            } else {
                assert(synced@ != Map::<Seq<char>, String>::empty());
                if table_view(synced@) == Map::<Seq<char>, Seq<char>>::empty() {
                    assert(table_view(synced@).dom() =~= synced@.dom());
                    assert(synced@ =~= Map::<Seq<char>, String>::empty());
                }
            }
        }
        if entries.len() != 0 && nothing {
            return ;
        }
        self.commands = synced;
    }
}

impl Default for RunCommandsPlugin {
    fn default() -> (r: Self)
        ensures
            r.table() == Map::<Seq<char>, Seq<char>>::empty(),
    {
        RunCommandsPlugin::new()
    }
}

proof fn lemma_runcommand_types()
    ensures
        TYPE_RUNCOMMAND@ != TYPE_RUNCOMMAND_REQUEST@,
{
    reveal_strlit("kdeconnect.runcommand");
    reveal_strlit("kdeconnect.runcommand.request");
    assert(TYPE_RUNCOMMAND@.len() == 21);
    assert(TYPE_RUNCOMMAND_REQUEST@.len() == 29);
}

impl Plugin for RunCommandsPlugin {
    open spec fn described(&self) -> MetaView {
        meta::run_commands_view()
    }

    open spec fn standing(&self) -> PluginState {
        PluginState::RunCommands { table: self.table() }
    }

    open spec fn next(&self, pkt: PacketView, env: HostEnv) -> PluginState {
        PluginState::RunCommands { table: table_after(self.table(), pkt) }
    }

    open spec fn replies(&self, pkt: PacketView, env: HostEnv) -> Seq<ReplyView> {
        match usable_text(pkt.body, "name"@) {
            Some(name) if pkt.ptype == TYPE_RUNCOMMAND_REQUEST@ && self.table().contains_key(
                name,
            ) => seq![
                ReplyView {
                    ptype: TYPE_RUNCOMMAND_REQUEST@,
                    body: confirmation_json(name, self.table()[name]),
                },
            ],
            _ => Seq::empty(),
        }
    }

    open spec fn mirrored(
        &self,
        pkt: PacketView,
        env: HostEnv,
        batteries: Map<Seq<char>, BatteryState>,
    ) -> Map<Seq<char>, BatteryState> {
        batteries
    }

    fn meta(&self) -> (r: PluginMeta) {
        meta::run_commands()
    }

    fn handle(&mut self, pkt: &Packet, host: &mut PluginHost) -> (r: Vec<Packet>) {
        proof {
            lemma_runcommand_types();
        }
        if text::same(pkt.ty(), TYPE_RUNCOMMAND) {
            self.handle_sync(pkt);
            return super::silence(host);
        }
        if !text::same(pkt.ty(), TYPE_RUNCOMMAND_REQUEST) {
            return super::silence(host);
        }
        let name = match usable_str(&pkt.body, "name") {
            Some(name) => name,
            None => {
                return super::silence(host);
            },
        };
        match self.commands.get(name) {
            Some(command) => {
                let body = Record::new()
                    .with("name", Json::text(name))
                    .with("command", Json::text(command.as_str()))
                    .done();
                super::answer(host, TYPE_RUNCOMMAND_REQUEST, body)
            },
            None => super::silence(host),
        }
    }
}

/// The body of a request to run a command.
pub open spec fn request_json(name: Seq<char>) -> JsonView {
    JsonView::Object(
        Map::<Seq<char>, JsonView>::empty().insert("name"@, JsonView::Str(name)),
    )
}

/// Builds an outbound packet asking the peer to run the command `name`.
pub fn build_request(ids: &mut PacketIds, name: &str) -> (r: Packet)
    ensures
        r@ == packet::plain_packet(
            packet::successor(old(ids).latest()),
            TYPE_RUNCOMMAND_REQUEST@,
            request_json(name@),
        ),
        final(ids).latest() == r.id,
{
    Packet::new(
        ids,
        TYPE_RUNCOMMAND_REQUEST,
        Record::new().with("name", Json::text(name)).done(),
    )
}

/// A request to run a command that the receiving side knows is confirmed with
/// that command.
pub proof fn law_requested_commands_are_confirmed(
    plugin: RunCommandsPlugin,
    id: i64,
    name: Seq<char>,
    env: HostEnv,
)
    requires
        name.len() > 0,
        plugin.table().contains_key(name),
    ensures
        plugin.replies(
            packet::plain_packet(id, TYPE_RUNCOMMAND_REQUEST@, request_json(name)),
            env,
        ) == seq![
            ReplyView {
                ptype: TYPE_RUNCOMMAND_REQUEST@,
                body: confirmation_json(name, plugin.table()[name]),
            },
        ],
{
}

/// Builds [`RunCommandsPlugin`] instances.
#[derive(Debug, Clone, Copy)]
pub struct RunCommandsFactory;

impl PluginFactory for RunCommandsFactory {
    open spec fn describes(&self) -> MetaView {
        meta::run_commands_view()
    }

    open spec fn initial(&self) -> PluginState {
        PluginState::RunCommands { table: Map::empty() }
    }

    fn meta(&self) -> (r: PluginMeta) {
        meta::run_commands()
    }

    fn create(&self) -> (r: PluginInstance) {
        PluginInstance::RunCommands(RunCommandsPlugin::new())
    }
}

/// A request that names a known command is confirmed once, with that name and
/// the command that the table holds for it. A request for anything else is
/// not answered, and no request changes the table.
pub proof fn law_confirmations_give_name_and_command(
    plugin: RunCommandsPlugin,
    pkt: PacketView,
    env: HostEnv,
    name: Seq<char>,
)
    requires
        pkt.ptype == TYPE_RUNCOMMAND_REQUEST@,
        json::text_at(pkt.body, "name"@) == Some(name),
    ensures
        ({
            let out = plugin.replies(pkt, env);
            &&& name.len() > 0 && plugin.table().contains_key(name) ==> {
                &&& out.len() == 1
                &&& out[0].ptype == TYPE_RUNCOMMAND_REQUEST@
                &&& json::text_at(out[0].body, "name"@) == Some(name)
                &&& json::text_at(out[0].body, "command"@) == Some(plugin.table()[name])
            }
            &&& name.len() == 0 || !plugin.table().contains_key(name) ==> out.len() == 0
        }),
        plugin.next(pkt, env) == plugin.standing(),
{
    lemma_runcommand_types();
    reveal_strlit("name");
    reveal_strlit("command");
    assert("name"@.len() == 4);
    assert("command"@.len() == 7);
}

/// A request that goes out names the command.
pub proof fn law_requests_name_the_command(name: Seq<char>)
    ensures
        json::text_at(request_json(name), "name"@) == Some(name),
{
}

/// The commands that the peer lists are the table afterwards: each usable
/// entry under its name, the last where a name occurs more than once, and
/// nothing else. A list without a usable entry, unless it is empty, and
/// packets of other types leave the table as it was.
pub proof fn law_listed_commands_are_the_table(
    plugin: RunCommandsPlugin,
    pkt: PacketView,
    env: HostEnv,
    list: Seq<JsonView>,
    i: int,
    name: Seq<char>,
    command: Seq<char>,
)
    ensures
        plugin.next(pkt, env) is RunCommands,
        ({
            let told = pkt.ptype == TYPE_RUNCOMMAND@ && json::list_at(pkt.body, "commandList"@)
                == Some(list);
            let after = plugin.next(pkt, env)->table;
            &&& told && 0 <= i < list.len() && offers(list[i], name, command) && (forall|j: int|
                i < j < list.len() ==> !names(#[trigger] list[j], name)) ==> after.contains_key(
                name,
            ) && after[name] == command
            &&& told && (exists|j: int, n: Seq<char>|
                0 <= j < list.len() && #[trigger] names(list[j], n)) && (forall|j: int|
                0 <= j < list.len() ==> !names(#[trigger] list[j], name)) ==> !after.contains_key(
                name,
            )
            &&& told && list.len() == 0 ==> !after.contains_key(name)
            &&& told && list.len() > 0 && (forall|j: int, n: Seq<char>|
                0 <= j < list.len() ==> !#[trigger] names(list[j], n)) ==> after == plugin.table()
        }),
        pkt.ptype != TYPE_RUNCOMMAND@ ==> plugin.next(pkt, env) == plugin.standing(),
        pkt.ptype == TYPE_RUNCOMMAND@ ==> plugin.replies(pkt, env).len() == 0,
{
    lemma_runcommand_types();
    lemma_list_table(list, name);
    if 0 <= i < list.len() && offers(list[i], name, command) && (forall|j: int|
        i < j < list.len() ==> !names(#[trigger] list[j], name)) {
        lemma_list_table_at(list, i, name, command);
    }
    if exists|j: int, n: Seq<char>| 0 <= j < list.len() && #[trigger] names(list[j], n) {
        let (j, n) = choose|j: int, n: Seq<char>|
            0 <= j < list.len() && #[trigger] names(list[j], n);
        lemma_list_table(list, n);
        assert(list_table(list).contains_key(n));
    } else {
        assert forall|n: Seq<char>| !list_table(list).contains_key(n) by {
            lemma_list_table(list, n);
        }
        assert(list_table(list) =~= Map::empty());
    }
}

/// Whether an entry of a command list gives a command under a name; neither
/// may be empty.
pub open spec fn offers(entry: JsonView, name: Seq<char>, command: Seq<char>) -> bool {
    &&& json::text_at(entry, "name"@) == Some(name)
    &&& json::text_at(entry, "command"@) == Some(command)
    &&& name.len() > 0
    &&& command.len() > 0
}

/// Whether an entry of a command list gives some command under a name.
pub open spec fn names(entry: JsonView, name: Seq<char>) -> bool {
    json::text_at(entry, "command"@) is Some && offers(
        entry,
        name,
        json::text_at(entry, "command"@)->0,
    )
}

proof fn lemma_list_table(list: Seq<JsonView>, name: Seq<char>)
    ensures
        list_table(list).contains_key(name) == exists|j: int|
            0 <= j < list.len() && names(#[trigger] list[j], name),
    decreases list.len(),
{
    if list.len() > 0 {
        let rest = list.drop_last();
        lemma_list_table(rest, name);
        assert(forall|j: int| 0 <= j < rest.len() ==> rest[j] == list[j]);
        assert(list.last() == list[list.len() - 1]);
        if exists|j: int| 0 <= j < list.len() && names(#[trigger] list[j], name) {
            let j = choose|j: int| 0 <= j < list.len() && names(#[trigger] list[j], name);
            if j < rest.len() {
                assert(names(rest[j], name));
            }
        }
    }
}

proof fn lemma_list_table_at(list: Seq<JsonView>, i: int, name: Seq<char>, command: Seq<char>)
    requires
        0 <= i < list.len(),
        offers(list[i], name, command),
        forall|j: int| i < j < list.len() ==> !names(#[trigger] list[j], name),
    ensures
        list_table(list).contains_key(name),
        list_table(list)[name] == command,
    decreases list.len(),
{
    let rest = list.drop_last();
    assert(list.last() == list[list.len() - 1]);
    if i < rest.len() {
        assert(forall|j: int| 0 <= j < rest.len() ==> rest[j] == list[j]);
        lemma_list_table_at(rest, i, name, command);
        assert(!names(list[list.len() - 1], name));
    }
}

} // verus!
