//! What holds of the device manager as a whole: pairing, connections, what
//! local clients are told, and the transfers.
use super::backends::Materialized;
use super::device;
use super::device::{
    ActionView, DeviceRequest, DeviceView, Manager, Sending, SourceStat, TransferRecord,
};
use super::discovery::Endpoint;
use super::toggles;
use crate::base::bus::Event;
use crate::base::paths;
use crate::base::store::DeviceRow;
use crate::json;
use crate::json::JsonView;
use crate::ordered;
use crate::plugins;
use crate::plugins::sms;
use crate::plugins::{HostEnv, Plugin, PluginInstance, ReplyView};
use crate::protocol::identity;
use crate::protocol::identity::IdentityView;
use crate::protocol::packet;
use crate::protocol::packet::PacketView;
use crate::protocol::transfer::UNKNOWN_SIZE;
use crate::protocol::{
    TYPE_BATTERY_REQUEST, TYPE_CLIPBOARD, TYPE_IDENTITY, TYPE_NOTIFICATION, TYPE_PAIR,
    TYPE_RUNCOMMAND_REQUEST, TYPE_SHARE,
};
use crate::text;
use vstd::prelude::*;

verus! {

/// Whether a step answers the caller with this ticket, and how.
pub open spec fn answers(
    actions: Seq<ActionView>,
    ticket: u64,
    answer: Result<bool, Seq<char>>,
) -> bool {
    actions.contains(ActionView::AnswerPairing { ticket, answer })
}

/// Whether an action tells the caller with this ticket that there is no
/// decision.
pub open spec fn turns_down(action: ActionView, ticket: u64) -> bool {
    action matches ActionView::AnswerPairing { ticket: told, answer: Err(_) } && told == ticket
}

/// Whether a step stores anything.
pub open spec fn stores(actions: Seq<ActionView>) -> bool {
    exists|i: int| 0 <= i < actions.len() && (#[trigger] actions[i]) is Store
}

/// Whether a step stores that a device is paired, or that it is not; a paired
/// one with its pinned fingerprint.
pub open spec fn stores_trust(
    actions: Seq<ActionView>,
    id: Seq<char>,
    paired: bool,
    fingerprint: Seq<char>,
) -> bool {
    exists|i: int|
        0 <= i < actions.len() && (#[trigger] actions[i] matches ActionView::Store(row)
            && row.device_id == id && row.paired == paired && row.cert_fingerprint == fingerprint)
}

/// Whether a step publishes an event.
pub open spec fn publishes(actions: Seq<ActionView>, event: Event<Seq<char>>) -> bool {
    actions.contains(ActionView::Publish(event))
}

/// Whether a step sends a device, over a connection, a packet that says
/// whether it is to be paired.
pub open spec fn says_pair(actions: Seq<ActionView>, id: Seq<char>, link: u64, wanted: bool) -> bool {
    exists|i: int|
        0 <= i < actions.len() && (#[trigger] actions[i] matches ActionView::Send {
            device_id,
            link: over,
            packet,
        } && device_id == id && over == link && packet.ptype == TYPE_PAIR@ && json::flag_at(
            packet.body,
            "pair"@,
        ) == Some(wanted))
}

/// Whether a step sends anything.
pub open spec fn sends_any(actions: Seq<ActionView>) -> bool {
    exists|i: int| 0 <= i < actions.len() && (#[trigger] actions[i]) is Send
}

/// Whether no device but one differs between two tables.
pub open spec fn others_unchanged(
    before: Map<Seq<char>, DeviceView>,
    after: Map<Seq<char>, DeviceView>,
    id: Seq<char>,
) -> bool {
    forall|k: Seq<char>| #![trigger after.contains_key(k)] #![trigger after[k]]
        k != id ==> after.contains_key(k) == before.contains_key(k) && after[k] == before[k]
}

/// A caller that waits for the decision of a device is told the decision that
/// the device sends, and nothing else. Where the device declines, nothing is
/// stored and it is pinned or not as before; where it accepts, the certificate
/// of its connection is pinned, the pairing is stored with it, and that is
/// published. Nobody waits any more then, and other devices stay as they are.
pub proof fn law_callers_hear_the_decision(
    devices: Map<Seq<char>, DeviceView>,
    id: Seq<char>,
    pkt: PacketView,
    auto_accept: bool,
    plugins: Seq<PluginInstance>,
    on: Map<Seq<char>, bool>,
    env: HostEnv,
    latest: i64,
    ticket: u64,
    accepted: bool,
)
    requires
        devices.contains_key(id),
        devices[id].pending == Some(ticket),
        pkt.ptype == TYPE_PAIR@,
        json::flag_at(pkt.body, "pair"@) == Some(accepted),
    ensures
        ({
            let after = device::after_packet(devices, id, pkt, auto_accept);
            let actions = device::packet_actions(
                devices,
                id,
                pkt,
                auto_accept,
                plugins,
                on,
                env,
                latest,
            );
            &&& answers(actions, ticket, Ok(accepted))
            &&& forall|i: int|
                0 <= i < actions.len() ==> ((#[trigger] actions[i]) is AnswerPairing ==> actions[i]
                    == (ActionView::AnswerPairing { ticket, answer: Ok(accepted) }))
            &&& after.contains_key(id)
            &&& after[id].pending is None
            &&& after[id].identity == devices[id].identity
            &&& after[id].outbound == devices[id].outbound
            &&& !accepted ==> after[id].pinned == devices[id].pinned && !stores(actions)
                && actions.len() == 1
            &&& accepted ==> after[id].pinned is Some
            &&& accepted ==> (devices[id].live matches Some(print) ==> after[id].pinned == Some(
                print,
            ) && stores_trust(actions, id, true, print))
            &&& accepted ==> publishes(
                actions,
                Event::DeviceStateChanged { id, state: "paired"@ },
            )
            &&& !sends_any(actions)
            &&& others_unchanged(devices, after, id)
        }),
{
    device::lemma_share_is_neither();
    let actions = device::packet_actions(devices, id, pkt, auto_accept, plugins, on, env, latest);
    assert(actions[0] == (ActionView::AnswerPairing { ticket, answer: Ok(accepted) }));
    if accepted {
        assert(actions[1] is Store);
        assert(actions[2] == ActionView::Publish(
            Event::DeviceStateChanged { id, state: "paired"@ },
        ));
    }
}

/// A device that asks to be paired while nobody waits is accepted exactly
/// where requests are accepted unseen and it is connected: then its
/// certificate is pinned, that is stored, and it is told so. Otherwise nothing
/// changes and it is told no, where it can be told.
pub proof fn law_unasked_requests_need_consent(
    devices: Map<Seq<char>, DeviceView>,
    id: Seq<char>,
    pkt: PacketView,
    auto_accept: bool,
    plugins: Seq<PluginInstance>,
    on: Map<Seq<char>, bool>,
    env: HostEnv,
    latest: i64,
)
    requires
        devices.contains_key(id),
        devices[id].pending is None,
        pkt.ptype == TYPE_PAIR@,
        json::flag_at(pkt.body, "pair"@) == Some(true),
    ensures
        ({
            let after = device::after_packet(devices, id, pkt, auto_accept);
            let actions = device::packet_actions(
                devices,
                id,
                pkt,
                auto_accept,
                plugins,
                on,
                env,
                latest,
            );
            let consent = auto_accept && devices[id].outbound is Some;
            &&& others_unchanged(devices, after, id)
            &&& !consent ==> after == devices && !stores(actions)
            &&& devices[id].outbound matches Some(link) ==> says_pair(
                actions,
                id,
                link,
                auto_accept,
            ) && !says_pair(actions, id, link, !auto_accept)
            &&& devices[id].outbound is None ==> actions.len() == 0
            &&& consent ==> after[id].pinned is Some && publishes(
                actions,
                Event::DeviceStateChanged { id, state: "paired"@ },
            )
            &&& consent ==> (devices[id].live matches Some(print) ==> after[id].pinned == Some(
                print,
            ) && stores_trust(actions, id, true, print))
        }),
{
    device::lemma_share_is_neither();
    let actions = device::packet_actions(devices, id, pkt, auto_accept, plugins, on, env, latest);
    if devices[id].outbound is Some {
        if auto_accept {
            assert(actions[0] is Store);
            assert(actions[1] == ActionView::Publish(
                Event::DeviceStateChanged { id, state: "paired"@ },
            ));
            assert(actions[2] is Send);
        } else {
            assert(actions[0] is Send);
        }
    }
}

/// A device that says it is no longer paired while nobody waits loses its pin;
/// that is stored and published. A pair packet that says neither changes
/// nothing and leads to nothing.
pub proof fn law_devices_can_unpair(
    devices: Map<Seq<char>, DeviceView>,
    id: Seq<char>,
    pkt: PacketView,
    auto_accept: bool,
    plugins: Seq<PluginInstance>,
    on: Map<Seq<char>, bool>,
    env: HostEnv,
    latest: i64,
)
    requires
        devices.contains_key(id),
        pkt.ptype == TYPE_PAIR@,
    ensures
        ({
            let after = device::after_packet(devices, id, pkt, auto_accept);
            let actions = device::packet_actions(
                devices,
                id,
                pkt,
                auto_accept,
                plugins,
                on,
                env,
                latest,
            );
            let leaves = json::flag_at(pkt.body, "pair"@) == Some(false) && devices[id].pending
                is None;
            &&& leaves ==> after[id].pinned is None && stores_trust(
                actions,
                id,
                false,
                Seq::empty(),
            )
            &&& leaves ==> publishes(
                actions,
                Event::DeviceStateChanged { id, state: "unpaired"@ },
            ) && !sends_any(actions)
            &&& leaves ==> others_unchanged(devices, after, id)
            &&& json::flag_at(pkt.body, "pair"@) is None ==> after == devices && actions.len() == 0
        }),
{
    device::lemma_share_is_neither();
    let actions = device::packet_actions(devices, id, pkt, auto_accept, plugins, on, env, latest);
    if json::flag_at(pkt.body, "pair"@) == Some(false) && devices[id].pending is None {
        assert(actions[0] is Store);
        assert(actions[1] == ActionView::Publish(
            Event::DeviceStateChanged { id, state: "unpaired"@ },
        ));
        assert(actions[2] is Publish);
    }
}

/// Pairing begins where a device is known, connected and not paired: it is
/// asked over its connection, and the caller waits with its ticket; a caller
/// that waited before is told that it no longer does. Otherwise the caller is
/// told at once that there is no pairing, and nothing changes. Nothing is
/// pinned or stored by asking.
pub proof fn law_pairing_begins_with_a_question(
    devices: Map<Seq<char>, DeviceView>,
    id: Seq<char>,
    ticket: u64,
    packet_id: i64,
)
    ensures
        ({
            let after = device::after_begin(devices, id, ticket);
            let actions = device::begin_actions(devices, id, ticket, packet_id);
            let can = devices.contains_key(id) && devices[id].outbound is Some
                && devices[id].pinned is None;
            &&& !stores(actions)
            &&& can ==> after.contains_key(id) && after[id].pending == Some(ticket)
                && after[id].pinned is None && after[id].outbound == devices[id].outbound
                && after[id].live == devices[id].live && after[id].identity
                == devices[id].identity
            &&& can ==> says_pair(actions, id, devices[id].outbound->0, true) && !answers(
                actions,
                ticket,
                Ok(true),
            ) && !answers(actions, ticket, Ok(false))
            &&& can ==> (devices[id].pending matches Some(earlier) ==> actions.len() == 2
                && turns_down(actions[0], earlier))
            &&& can && devices[id].pending is None ==> actions.len() == 1
            &&& !can ==> after == devices && actions.len() == 1 && turns_down(actions[0], ticket)
            &&& others_unchanged(devices, after, id)
        }),
{
    let actions = device::begin_actions(devices, id, ticket, packet_id);
    if devices.contains_key(id) && devices[id].outbound is Some && devices[id].pinned is None {
        if devices[id].pending is Some {
            assert(actions[0] is AnswerPairing);
            assert(actions[1] is Send);
        } else {
            assert(actions[0] is Send);
        }
    }
}

/// Revoking trust in a known device lifts its pin, stores that, publishes it,
/// and tells the device where it is connected.
pub proof fn law_revoked_trust_is_told_and_stored(
    devices: Map<Seq<char>, DeviceView>,
    id: Seq<char>,
    now_ms: u64,
    packet_id: i64,
)
    requires
        devices.contains_key(id),
    ensures
        ({
            let after = device::after_trust(devices, id, false);
            let actions = device::unpair_actions(devices, id, now_ms, packet_id);
            &&& after.contains_key(id) && after[id].pinned is None
            &&& after[id].outbound == devices[id].outbound && after[id].pending
                == devices[id].pending
            &&& stores_trust(actions, id, false, Seq::empty())
            &&& !stores_trust(actions, id, true, Seq::empty())
            &&& publishes(actions, Event::DeviceStateChanged { id, state: "unpaired"@ })
            &&& devices[id].outbound matches Some(link) ==> says_pair(actions, id, link, false)
            &&& devices[id].outbound is None ==> !sends_any(actions)
            &&& others_unchanged(devices, after, id)
        }),
{
    let actions = device::unpair_actions(devices, id, now_ms, packet_id);
    if devices[id].outbound is Some {
        assert(actions[0] is Send);
        assert(actions[1] is Store);
        assert(actions[2] == ActionView::Publish(
            Event::DeviceStateChanged { id, state: "unpaired"@ },
        ));
    } else {
        assert(actions[0] is Store);
        assert(actions[1] == ActionView::Publish(
            Event::DeviceStateChanged { id, state: "unpaired"@ },
        ));
    }
}

/// The record that is stored of a device holds what the device says of itself
/// and the time in seconds.
pub proof fn law_stored_records_describe_the_device(
    devices: Map<Seq<char>, DeviceView>,
    id: Seq<char>,
    paired: bool,
    now_ms: u64,
)
    requires
        devices.contains_key(id),
    ensures
        device::trust_actions(devices, id, paired, now_ms)[0] matches ActionView::Store(row) && {
            &&& row.device_id == id
            &&& row.name == devices[id].identity.name
            &&& row.device_type == devices[id].identity.device_type
            &&& row.paired == paired
            &&& row.last_seen matches Some(seconds) && seconds * 1000 <= now_ms < seconds * 1000
                + 1000
        },
{
}

/// A stored record is restored as the device that it describes: offline, and
/// pinned to the stored fingerprint exactly where it is paired. Devices
/// without a record stay as they are, and this device's own record is skipped.
pub proof fn law_records_are_restored(
    devices: Map<Seq<char>, DeviceView>,
    row: DeviceRow<Seq<char>>,
    self_id: Seq<char>,
)
    ensures
        ({
            let after = device::restored(devices, seq![row], self_id);
            let id = row.device_id;
            &&& id == self_id ==> after == devices
            &&& id != self_id ==> after.contains_key(id)
            &&& id != self_id ==> after[id].identity.device_id == id && after[id].identity.name
                == row.name && after[id].identity.device_type == row.device_type
            &&& id != self_id && row.paired ==> after[id].pinned == Some(row.cert_fingerprint)
            &&& id != self_id && !row.paired ==> after[id].pinned is None
            &&& id != self_id ==> after[id].outbound is None && after[id].live is None
                && after[id].pending is None && after[id].addr is None
            &&& others_unchanged(devices, after, id)
        }),
{
    assert(seq![row].drop_last() =~= Seq::empty());
    assert(seq![row].last() == row);
    assert(device::restored(devices, Seq::empty(), self_id) == devices);
}

/// An announcement makes a device known under what it says of itself and
/// where it listens; what is pinned and how it is connected stays. It is
/// reported where it is new, and dialed, at the address and port that it
/// announced, exactly where it is not connected.
pub proof fn law_announced_devices_are_found_and_dialed(
    devices: Map<Seq<char>, DeviceView>,
    who: IdentityView,
    endpoint: Endpoint,
)
    ensures
        ({
            let d = device::announced_device(devices, who, endpoint);
            let actions = device::announcement_actions(devices, who, endpoint);
            let known = devices.contains_key(who.device_id);
            let connected = known && devices[who.device_id].outbound is Some;
            &&& d.identity == who && d.addr == Some(endpoint)
            &&& known ==> d.pinned == devices[who.device_id].pinned && d.outbound
                == devices[who.device_id].outbound && d.live == devices[who.device_id].live
                && d.pending == devices[who.device_id].pending
            &&& !known ==> d.pinned is None && d.outbound is None && d.live is None && d.pending
                is None
            &&& publishes(
                actions,
                Event::DeviceFound { id: who.device_id, name: who.name },
            ) == !known
            &&& actions.contains(ActionView::Dial { device_id: who.device_id, endpoint })
                == !connected
            &&& actions.len() == (if known { 0int } else { 1 }) + (if connected { 0int } else { 1 })
        }),
{
    let actions = device::announcement_actions(devices, who, endpoint);
    let known = devices.contains_key(who.device_id);
    if !known {
        assert(actions[0] == ActionView::Publish(
            Event::DeviceFound { id: who.device_id, name: who.name },
        ));
        assert(actions[1] is Dial);
    } else if devices[who.device_id].outbound is None {
        assert(actions[0] is Dial);
    }
}

/// A connection that is let in is the device's connection, with the
/// fingerprint that it presented; what is pinned stays as it is. When it
/// closes the device is offline, a caller that waited for its decision is
/// told so, and what is pinned still stays. Other devices stay as they are.
pub proof fn law_connections_come_and_go(
    devices: Map<Seq<char>, DeviceView>,
    id: Seq<char>,
    print: Seq<char>,
    link: u64,
)
    ensures
        ({
            let up = device::after_connected(devices, id, print, link);
            let down = device::after_closed(devices, id);
            let actions = device::closed_actions(devices, id);
            &&& up.contains_key(id) && up[id].outbound == Some(link) && up[id].live == Some(print)
            &&& devices.contains_key(id) ==> up[id].pinned == devices[id].pinned && up[id].identity
                == devices[id].identity && up[id].pending == devices[id].pending && up[id].addr
                == devices[id].addr
            &&& !devices.contains_key(id) ==> up[id].pinned is None && up[id].identity.device_id
                == id && up[id].pending is None
            &&& others_unchanged(devices, up, id)
            &&& devices.contains_key(id) ==> down.contains_key(id) && down[id].outbound is None
                && down[id].live is None && down[id].pending is None && down[id].pinned
                == devices[id].pinned && down[id].identity == devices[id].identity
            &&& !devices.contains_key(id) ==> down == devices
            &&& others_unchanged(devices, down, id)
            &&& publishes(actions, Event::DeviceStateChanged { id, state: "offline"@ })
            &&& devices.contains_key(id) ==> (devices[id].pending matches Some(ticket)
                ==> actions.len() == 2 && turns_down(actions[0], ticket))
            &&& !devices.contains_key(id) || devices[id].pending is None ==> actions.len() == 1
        }),
{
    let actions = device::closed_actions(devices, id);
    assert(actions[actions.len() - 1] == ActionView::Publish(
        Event::DeviceStateChanged { id, state: "offline"@ },
    ));
}

/// What is published about a connection tells which of three things happened:
/// the certificate did not match, a known device came online, or an unknown
/// device was found.
pub proof fn law_connections_are_reported(
    devices: Map<Seq<char>, DeviceView>,
    id: Seq<char>,
    print: Seq<char>,
)
    ensures
        ({
            let event = device::connected_event(devices, id, print);
            let pinned = if devices.contains_key(id) {
                devices[id].pinned
            } else {
                None
            };
            &&& pinned is Some && pinned->0 != print ==> event is LogRecord
                && event->level == "error"@
            &&& (pinned is None || pinned->0 == print) && devices.contains_key(id) ==> event
                == (Event::DeviceStateChanged { id, state: "online"@ })
            &&& !devices.contains_key(id) ==> event is DeviceFound && event->DeviceFound_id
                == id
        }),
{
}

/// In the list that local clients get, the row of a device gives its id, its
/// name and its type; `paired` is true exactly where a fingerprint is pinned,
/// and `online` exactly where the device has a connection.
pub proof fn law_rows_tell_who_is_paired_and_online(id: Seq<char>, d: DeviceView)
    ensures
        ({
            let row = device::device_json(id, d);
            &&& json::text_at(row, "device_id"@) == Some(id)
            &&& json::text_at(row, "name"@) == Some(d.identity.name)
            &&& json::text_at(row, "type"@) == Some(d.identity.device_type)
            &&& json::flag_at(row, "paired"@) == Some(d.pinned is Some)
            &&& json::flag_at(row, "online"@) == Some(d.outbound is Some)
            &&& json::list_at(row, "capabilities_incoming"@) matches Some(list) && list.len()
                == d.identity.incoming.len() && forall|i: int|
                0 <= i < list.len() ==> #[trigger] list[i] == JsonView::Str(d.identity.incoming[i])
            &&& json::list_at(row, "capabilities_outgoing"@) matches Some(list) && list.len()
                == d.identity.outgoing.len() && forall|i: int|
                0 <= i < list.len() ==> #[trigger] list[i] == JsonView::Str(d.identity.outgoing[i])
        }),
{
    reveal_strlit("device_id");
    reveal_strlit("name");
    reveal_strlit("type");
    reveal_strlit("paired");
    reveal_strlit("online");
    reveal_strlit("capabilities_incoming");
    reveal_strlit("capabilities_outgoing");
    assert("device_id"@.len() == 9);
    assert("name"@.len() == 4);
    assert("type"@.len() == 4);
    assert("paired"@.len() == 6);
    assert("online"@.len() == 6);
    assert("capabilities_incoming"@.len() == 21);
    assert("capabilities_outgoing"@.len() == 21);
    assert("name"@[0] != "type"@[0]);
    assert("paired"@[0] != "online"@[0]);
    assert("capabilities_incoming"@[13] != "capabilities_outgoing"@[13]);
}

/// The list of devices follows what happens to a device: one that connects is
/// listed as online, and as paired or not as before; one that is paired over
/// its connection is listed as paired and online; one whose connection closes
/// is listed as offline, and still as paired where it was; and one that is
/// unpaired is listed as not paired.
pub proof fn law_rows_follow_the_device(
    devices: Map<Seq<char>, DeviceView>,
    id: Seq<char>,
    print: Seq<char>,
    link: u64,
)
    requires
        devices.contains_key(id),
    ensures
        ({
            let paired = |m: Map<Seq<char>, DeviceView>|
                json::flag_at(device::device_json(id, m[id]), "paired"@);
            let online = |m: Map<Seq<char>, DeviceView>|
                json::flag_at(device::device_json(id, m[id]), "online"@);
            let up = device::after_connected(devices, id, print, link);
            let trusted = device::after_trust(up, id, true);
            &&& online(up) == Some(true) && paired(up) == paired(devices)
            &&& online(trusted) == Some(true) && paired(trusted) == Some(true)
            &&& online(device::after_closed(devices, id)) == Some(false)
            &&& paired(device::after_closed(devices, id)) == paired(devices)
            &&& online(device::after_closed(trusted, id)) == Some(false)
            &&& paired(device::after_closed(trusted, id)) == Some(true)
            &&& paired(device::after_trust(devices, id, false)) == Some(false)
            &&& online(device::after_trust(devices, id, false)) == online(devices)
        }),
{
    let up = device::after_connected(devices, id, print, link);
    let trusted = device::after_trust(up, id, true);
    law_rows_tell_who_is_paired_and_online(id, devices[id]);
    law_rows_tell_who_is_paired_and_online(id, up[id]);
    law_rows_tell_who_is_paired_and_online(id, trusted[id]);
    law_rows_tell_who_is_paired_and_online(id, device::after_closed(devices, id)[id]);
    law_rows_tell_who_is_paired_and_online(id, device::after_closed(trusted, id)[id]);
    law_rows_tell_who_is_paired_and_online(id, device::after_trust(devices, id, false)[id]);
}

/// A device that introduces itself again is known by what it says now; its
/// pin, its connection and the caller that waits for it stay. An introduction
/// that cannot be read changes nothing, and neither is answered.
pub proof fn law_introductions_are_taken_over(
    devices: Map<Seq<char>, DeviceView>,
    id: Seq<char>,
    pkt: PacketView,
    auto_accept: bool,
    plugins: Seq<PluginInstance>,
    on: Map<Seq<char>, bool>,
    env: HostEnv,
    latest: i64,
)
    requires
        devices.contains_key(id),
        pkt.ptype == TYPE_IDENTITY@,
    ensures
        ({
            let after = device::after_packet(devices, id, pkt, auto_accept);
            &&& identity::identity_of(pkt.body) matches Some(who) ==> after.contains_key(id)
                && after[id].identity == who && after[id].pinned == devices[id].pinned
                && after[id].outbound == devices[id].outbound && after[id].live
                == devices[id].live && after[id].pending == devices[id].pending
            &&& identity::identity_of(pkt.body) is None ==> after == devices
            &&& others_unchanged(devices, after, id)
            &&& device::packet_actions(
                devices,
                id,
                pkt,
                auto_accept,
                plugins,
                on,
                env,
                latest,
            ).len() == 0
        }),
{
}

/// A notification of the phone is published with the texts that it carries,
/// each under its own name, and a clipboard that the phone sends is published
/// with its content. No other packet is published, but for pairing.
pub proof fn law_phone_news_is_published(
    devices: Map<Seq<char>, DeviceView>,
    id: Seq<char>,
    pkt: PacketView,
    auto_accept: bool,
    on: Map<Seq<char>, bool>,
    env: HostEnv,
    latest: i64,
)
    requires
        pkt.ptype != TYPE_IDENTITY@,
        pkt.ptype != TYPE_PAIR@,
    ensures
        ({
            let actions = device::packet_actions(
                devices,
                id,
                pkt,
                auto_accept,
                Seq::empty(),
                on,
                env,
                latest,
            );
            let text = |key: Seq<char>|
                match json::text_at(pkt.body, key) {
                    Some(t) => t,
                    None => Seq::empty(),
                };
            &&& pkt.ptype == TYPE_NOTIFICATION@ ==> actions.len() == 1 && actions[0]
                == ActionView::Publish(
                Event::NotificationReceived {
                    id: text("id"@),
                    app: text("appName"@),
                    title: text("title"@),
                    body: text("text"@),
                },
            )
            &&& pkt.ptype == TYPE_CLIPBOARD@ ==> (json::text_at(pkt.body, "content"@) matches Some(
                content,
            ) ==> actions.len() == 1 && actions[0] == ActionView::Publish(
                Event::ClipboardUpdated { text: content },
            ))
            &&& pkt.ptype == TYPE_CLIPBOARD@ && json::text_at(pkt.body, "content"@) is None
                ==> actions.len() == 0
            &&& pkt.ptype != TYPE_NOTIFICATION@ && pkt.ptype != TYPE_CLIPBOARD@ ==> actions.len()
                == 0
        }),
{
    reveal_strlit("kdeconnect.notification");
    reveal_strlit("kdeconnect.clipboard");
    assert(TYPE_NOTIFICATION@.len() == 23 && TYPE_CLIPBOARD@.len() == 20);
    assert(plugins::numbered(Seq::empty(), latest) =~= Seq::empty());
    assert(device::dispatched(Seq::empty(), on, pkt, env) =~= Seq::empty());
}

/// What the plugins that a packet reaches answer is sent back over the
/// device's connection, each reply as it is and one after the other; a device
/// that is not connected is sent nothing.
pub proof fn law_replies_go_back_to_the_device(
    devices: Map<Seq<char>, DeviceView>,
    id: Seq<char>,
    pkt: PacketView,
    auto_accept: bool,
    plugins: Seq<PluginInstance>,
    on: Map<Seq<char>, bool>,
    env: HostEnv,
    latest: i64,
    i: int,
    k: int,
)
    requires
        pkt.ptype != TYPE_IDENTITY@,
        pkt.ptype != TYPE_PAIR@,
        0 <= i < plugins.len(),
        plugins[i].described().incoming.contains(pkt.ptype),
        toggles::switched_on(plugins[i].described(), on),
        0 <= k < plugins[i].replies(pkt, env).len(),
    ensures
        ({
            let actions = device::packet_actions(
                devices,
                id,
                pkt,
                auto_accept,
                plugins,
                on,
                env,
                latest,
            );
            let reply = plugins[i].replies(pkt, env)[k];
            &&& devices.contains_key(id) && devices[id].outbound is Some ==> sends_reply(
                actions,
                id,
                devices[id].outbound->0,
                reply,
            )
            &&& !devices.contains_key(id) || devices[id].outbound is None ==> !sends_any(actions)
        }),
{
    let replies = device::dispatched(plugins, on, pkt, env);
    let at = lemma_reply_is_dispatched(plugins, on, pkt, env, i, k);
    let link = device::link_of(devices, id);
    let news = device::published(device::side_events(pkt));
    let sent = device::sends(id, link, plugins::numbered(replies, latest));
    let actions = news + sent;
    if link is Some {
        assert(actions[news.len() + at] == sent[at]);
    } else {
        assert forall|j: int| 0 <= j < actions.len() implies !((#[trigger] actions[j]) is Send) by {
            assert(actions[j] == news[j]);
        }
    }
}

/// Whether a step sends a reply to a device over a connection.
pub open spec fn sends_reply(
    actions: Seq<ActionView>,
    id: Seq<char>,
    link: u64,
    reply: ReplyView,
) -> bool {
    exists|j: int|
        0 <= j < actions.len() && (#[trigger] actions[j] matches ActionView::Send {
            device_id,
            link: over,
            packet,
        } && device_id == id && over == link && packet.ptype == reply.ptype && packet.body
            == reply.body && packet.payload_size is None && packet.payload_transfer_info is None)
}

proof fn lemma_reply_is_dispatched(
    plugins: Seq<PluginInstance>,
    on: Map<Seq<char>, bool>,
    pkt: PacketView,
    env: HostEnv,
    i: int,
    k: int,
) -> (at: int)
    requires
        0 <= i < plugins.len(),
        device::reaches(plugins[i], pkt.ptype, on),
        0 <= k < plugins[i].replies(pkt, env).len(),
    ensures
        0 <= at < device::dispatched(plugins, on, pkt, env).len(),
        device::dispatched(plugins, on, pkt, env)[at] == plugins[i].replies(pkt, env)[k],
    decreases plugins.len(),
{
    let rest = plugins.drop_last();
    let before = device::dispatched(rest, on, pkt, env);
    if i == plugins.len() - 1 {
        before.len() + k
    } else {
        assert(rest[i] == plugins[i]);
        lemma_reply_is_dispatched(rest, on, pkt, env, i, k)
    }
}

/// A file that a device announces is registered as an active incoming
/// transfer of that device, under the announced name and size, and fetched
/// under that name over the data connection. An unknown size counts as 0 in
/// the registry, and a header without a name gives a fixed one.
pub proof fn law_announced_files_are_fetched(
    transfer_id: Seq<char>,
    id: Seq<char>,
    header: PacketView,
    link: Option<u64>,
)
    ensures
        ({
            let record = device::incoming_record(id, header);
            let actions = device::receive_actions(transfer_id, id, header, link);
            &&& actions.len() == 2
            &&& actions[0] matches ActionView::Publish(Event::TransferAdded {
                id: added,
                device_id,
                direction,
                file_name,
                total,
            }) && added == transfer_id && device_id == id && direction == "incoming"@ && file_name
                == record.file_name && total == record.total
            &&& actions[1] matches ActionView::Receive {
                transfer_id: fetched,
                device_id,
                file_name,
                size,
                link: over,
            } && fetched == transfer_id && device_id == id && file_name == record.file_name && over
                == link && (header.payload_size matches Some(n) ==> size == if n < 0 {
                UNKNOWN_SIZE as int
            } else {
                n as int
            }) && (header.payload_size is None ==> size == 0)
            &&& record.device_id == id && record.direction == "incoming"@ && record.state
                == "active"@ && record.done == 0 && record.reason is None && !record.cancelled
            &&& json::text_at(header.body, "filename"@) matches Some(name) ==> record.file_name
                == name
            &&& header.payload_size matches Some(n) ==> record.total == if n < 0 {
                0
            } else {
                n as int
            }
        }),
{
}

/// A file can be sent exactly where it is a regular file and the device is
/// known and connected.
pub proof fn law_files_go_to_connected_devices(
    devices: Map<Seq<char>, DeviceView>,
    id: Seq<char>,
    local: Seq<char>,
    stat: SourceStat<Seq<char>>,
)
    ensures
        device::send_refusal(devices, id, local, stat) is None <==> stat is File
            && devices.contains_key(id) && devices[id].outbound is Some,
{
}

/// A file is sent to the device that was named, over its connection, with the
/// name, size and time of change that it has.
pub proof fn law_files_are_sent_as_they_are(
    devices: Map<Seq<char>, DeviceView>,
    id: Seq<char>,
    source: Materialized<Seq<char>>,
    size: u64,
    modified_ms: Option<i64>,
    dir: Seq<char>,
    name: Seq<char>,
)
    requires
        devices.contains_key(id),
        devices[id].outbound is Some,
        source.local == dir + seq!['/'] + name,
        name.len() > 0,
        name != seq!['.'],
        name != seq!['.', '.'],
        forall|i: int| 0 <= i < name.len() ==> #[trigger] name[i] != '/',
    ensures
        ({
            let s = device::planned_send(
                devices,
                id,
                source,
                SourceStat::File { size, modified_ms },
            );
            &&& s.device_id == id
            &&& Some(s.link) == devices[id].outbound
            &&& s.size == size
            &&& modified_ms matches Some(t) ==> s.modified_ms == t
            &&& s.cleanup == source.cleanup
            &&& s.file_name == name
        }),
{
    paths::law_file_names_follow_the_last_slash(dir, name);
}

/// The header of a file announces its name, its time of change, its size and
/// that it is one file; a file that is not empty also announces the size of
/// the payload and the port at which it can be fetched.
pub proof fn law_headers_announce_the_file(s: Sending<Seq<char>>, port: Option<u16>, id: i64)
    requires
        s.size <= i64::MAX,
    ensures
        ({
            let header = device::header_packet(s, port, id);
            &&& header.ptype == TYPE_SHARE@
            &&& json::text_at(header.body, "filename"@) == Some(s.file_name)
            &&& json::member(header.body, "lastModified"@) == Some(
                JsonView::Int(s.modified_ms as int),
            )
            &&& json::count_at(header.body, "numberOfFiles"@) == Some(1u64)
            &&& json::count_at(header.body, "totalPayloadSize"@) == Some(s.size)
            &&& port matches Some(p) ==> header.payload_size == Some(s.size as i64)
                && header.payload_transfer_info is Some && json::count_at(
                JsonView::Object(header.payload_transfer_info->0),
                "port"@,
            ) == Some(p as u64)
            &&& port is None ==> header.payload_size is None && header.payload_transfer_info is None
        }),
{
    reveal_strlit("filename");
    reveal_strlit("creationTime");
    reveal_strlit("lastModified");
    reveal_strlit("numberOfFiles");
    reveal_strlit("totalPayloadSize");
    assert("filename"@.len() == 8);
    assert("creationTime"@.len() == 12);
    assert("lastModified"@.len() == 12);
    assert("numberOfFiles"@.len() == 13);
    assert("totalPayloadSize"@.len() == 16);
    assert("creationTime"@[0] != "lastModified"@[0]);
}

/// A file that was announced is registered as an active outgoing transfer to
/// its device, under its name and size, and that is published; an empty file
/// is finished at once. Other transfers stay as they are.
pub proof fn law_sent_files_are_registered(
    transfers: Map<Seq<char>, TransferRecord<Seq<char>>>,
    id: Seq<char>,
    s: Sending<Seq<char>>,
    other: Seq<char>,
)
    ensures
        ({
            let after = device::after_send(transfers, id, s);
            let actions = device::send_actions(id, s);
            &&& after.contains_key(id)
            &&& after[id].device_id == s.device_id && after[id].direction == "outgoing"@
                && after[id].file_name == s.file_name && after[id].total == s.size
            &&& after[id].state == if s.size == 0 {
                "finished"@
            } else {
                "active"@
            }
            &&& !after[id].cancelled && after[id].reason is None
            &&& publishes(
                actions,
                Event::TransferAdded {
                    id,
                    device_id: s.device_id,
                    direction: "outgoing"@,
                    file_name: s.file_name,
                    total: s.size,
                },
            )
            &&& publishes(actions, Event::TransferFinished { id }) == (s.size == 0)
            &&& other != id ==> after.contains_key(other) == transfers.contains_key(other)
                && after[other] == transfers[other]
        }),
{
    let actions = device::send_actions(id, s);
    assert(actions[0] is Publish);
    if s.size == 0 {
        assert(actions[1] == ActionView::Publish(Event::TransferFinished { id }));
    }
}

/// A transfer whose stream ended well is finished; one whose stream failed is
/// failed for the reason that was given, and what it left behind is swept
/// away. That is published. Who sends what to whom stays as it was, and so do
/// other transfers.
pub proof fn law_outcomes_are_recorded(
    transfers: Map<Seq<char>, TransferRecord<Seq<char>>>,
    id: Seq<char>,
    result: Result<(), Seq<char>>,
    other: Seq<char>,
)
    ensures
        ({
            let after = device::after_outcome(transfers, id, result);
            let actions = device::outcome_actions(transfers, id, result);
            &&& transfers.contains_key(id) ==> {
                let (t, u) = (transfers[id], after[id]);
                &&& after.contains_key(id)
                &&& result is Ok ==> u.state == "finished"@ && u.reason is None
                &&& result matches Err(reason) ==> u.state == "failed"@ && u.reason == Some(reason)
                &&& u.device_id == t.device_id && u.direction == t.direction && u.file_name
                    == t.file_name && u.total == t.total && u.done == t.done && u.cancelled
                    == t.cancelled
                &&& t.cleanup matches Some(path) ==> actions.contains(ActionView::Discard { path })
            }
            &&& publishes(actions, Event::TransferFinished { id }) == result is Ok
            &&& result matches Err(reason) ==> publishes(
                actions,
                Event::TransferFailed { id, reason },
            ) && actions.contains(ActionView::Sweep { transfer_id: id })
            &&& result is Ok ==> !actions.contains(ActionView::Sweep { transfer_id: id })
            &&& other != id ==> after.contains_key(other) == transfers.contains_key(other)
                && after[other] == transfers[other]
            &&& !transfers.contains_key(id) ==> after == transfers
        }),
{
    let actions = device::outcome_actions(transfers, id, result);
    let n = actions.len() as int;
    if result is Ok {
        assert(actions[n - 1] == ActionView::Publish(Event::TransferFinished { id }));
    } else {
        assert(actions[n - 1] is Publish);
        assert(actions[n - 2] == (ActionView::Sweep { transfer_id: id }));
    }
    if n > 0 && device::cleanup_of(transfers, id) is Some {
        assert(actions[0] is Discard);
    }
}

/// An active transfer can be cancelled, and is then wanted to stop; any other
/// cannot, and nothing changes. No other transfer is stopped.
pub proof fn law_cancelling_stops_one_transfer(
    transfers: Map<Seq<char>, TransferRecord<Seq<char>>>,
    id: Seq<char>,
    other: Seq<char>,
)
    requires
        other != id,
    ensures
        ({
            let after = device::after_cancel(transfers, id);
            let active = transfers.contains_key(id) && transfers[id].state == "active"@;
            &&& device::cancel_refusal(transfers, id) is None <==> active
            &&& active ==> device::wants_stop(after, id) && after[id].state == "active"@
                && after[id].file_name == transfers[id].file_name && after[id].device_id
                == transfers[id].device_id && after[id].total == transfers[id].total
            &&& !active ==> after == transfers
            &&& device::wants_stop(after, other) == device::wants_stop(transfers, other)
            &&& after.contains_key(other) == transfers.contains_key(other) && after[other]
                == transfers[other]
        }),
{
}

/// The rows of the transfer registry give of each transfer what is recorded
/// of it, each value under its own name.
pub proof fn law_transfer_rows_give_the_record(id: Seq<char>, t: TransferRecord<Seq<char>>)
    ensures
        ({
            let row = device::record_json(id, t);
            &&& json::text_at(row, "id"@) == Some(id)
            &&& json::text_at(row, "device_id"@) == Some(t.device_id)
            &&& json::text_at(row, "direction"@) == Some(t.direction)
            &&& json::text_at(row, "file_name"@) == Some(t.file_name)
            &&& json::count_at(row, "total"@) == Some(t.total)
            &&& json::text_at(row, "state"@) == Some(t.state)
            &&& json::count_at(row, "done"@) == Some(t.done)
            &&& json::text_at(row, "reason"@) == t.reason
        }),
        ({
            let row = device::client_record_json(id, t);
            &&& json::text_at(row, "id"@) == Some(id)
            &&& json::text_at(row, "deviceId"@) == Some(t.device_id)
            &&& json::text_at(row, "direction"@) == Some(t.direction)
            &&& json::text_at(row, "fileName"@) == Some(t.file_name)
            &&& json::count_at(row, "fileSize"@) == Some(t.total)
            &&& json::count_at(row, "bytesTransferred"@) == Some(t.done)
        }),
{
    reveal_strlit("id");
    reveal_strlit("device_id");
    reveal_strlit("direction");
    reveal_strlit("file_name");
    reveal_strlit("total");
    reveal_strlit("state");
    reveal_strlit("done");
    reveal_strlit("reason");
    reveal_strlit("deviceId");
    reveal_strlit("fileName");
    reveal_strlit("fileSize");
    reveal_strlit("bytesTransferred");
    assert("id"@.len() == 2);
    assert("device_id"@.len() == 9);
    assert("direction"@.len() == 9);
    assert("file_name"@.len() == 9);
    assert("total"@.len() == 5);
    assert("state"@.len() == 5);
    assert("done"@.len() == 4);
    assert("reason"@.len() == 6);
    assert("deviceId"@.len() == 8);
    assert("fileName"@.len() == 8);
    assert("fileSize"@.len() == 8);
    assert("bytesTransferred"@.len() == 16);
    assert("device_id"@[1] != "direction"@[1]);
    assert("device_id"@[0] != "file_name"@[0]);
    assert("direction"@[0] != "file_name"@[0]);
    assert("total"@[0] != "state"@[0]);
    assert("deviceId"@[0] != "fileName"@[0]);
    assert("deviceId"@[0] != "fileSize"@[0]);
    assert("fileName"@[4] != "fileSize"@[4]);
}

/// A command that a device offers is listed with its name and what it runs.
pub proof fn law_command_rows_give_the_command(name: Seq<char>, command: Seq<char>)
    ensures
        json::text_at(device::command_json(name, command), "name"@) == Some(name),
        json::text_at(device::command_json(name, command), "command"@) == Some(command),
{
    reveal_strlit("name");
    reveal_strlit("command");
    assert("name"@.len() == 4);
    assert("command"@.len() == 7);
}

/// Something can be asked of a device exactly where it is known and connected
/// and, for a text message, paired.
pub proof fn law_requests_need_a_connection(
    devices: Map<Seq<char>, DeviceView>,
    id: Seq<char>,
    request: DeviceRequest<Seq<char>>,
)
    ensures
        device::request_refusal(devices, id, request) is None <==> devices.contains_key(id)
            && devices[id].outbound is Some && (request is Sms ==> devices[id].pinned is Some),
{
}

/// The packet that goes to a device says what was asked: the command by its
/// name, the text or the URL as it is, the message with its number, or a
/// request for the battery, each in a packet of its own type.
pub proof fn law_requests_say_what_was_asked(content: Seq<char>, number: Seq<char>, id: i64)
    ensures
        ({
            let run = device::request_packet(DeviceRequest::RunCommand(content), id);
            let text = device::request_packet(DeviceRequest::ShareText(content), id);
            let url = device::request_packet(DeviceRequest::ShareUrl(content), id);
            let battery = device::request_packet(DeviceRequest::Battery, id);
            let message = device::request_packet(
                DeviceRequest::Sms { number, text: content },
                id,
            );
            &&& run.ptype == TYPE_RUNCOMMAND_REQUEST@ && json::text_at(run.body, "name"@) == Some(
                content,
            )
            &&& text.ptype == TYPE_SHARE@ && json::text_at(text.body, "text"@) == Some(content)
                && json::member(text.body, "url"@) is None
            &&& url.ptype == TYPE_SHARE@ && json::text_at(url.body, "url"@) == Some(content)
                && json::member(url.body, "text"@) is None
            &&& battery.ptype == TYPE_BATTERY_REQUEST@ && json::flag_at(battery.body, "request"@)
                == Some(true)
            &&& message.ptype == sms::TYPE_SMS_REQUEST@ && json::text_at(
                message.body,
                "phoneNumber"@,
            ) == Some(number) && json::text_at(message.body, "messageBody"@) == Some(content)
                && json::flag_at(message.body, "sendSms"@) == Some(true)
            &&& run.id == id && text.id == id && url.id == id && battery.id == id && message.id
                == id
            &&& run.payload_size is None && text.payload_size is None && url.payload_size is None
                && battery.payload_size is None && message.payload_size is None
        }),
{
    reveal_strlit("text");
    reveal_strlit("url");
    reveal_strlit("sendSms");
    reveal_strlit("phoneNumber");
    reveal_strlit("messageBody");
    assert("text"@.len() == 4);
    assert("url"@.len() == 3);
    assert("sendSms"@.len() == 7);
    assert("phoneNumber"@.len() == 11);
    assert("messageBody"@.len() == 11);
    assert("phoneNumber"@[0] != "messageBody"@[0]);
}

/// A file that is turned away is listed as an inbound transfer of its device
/// that failed for the reason given, without a byte of it; it is announced
/// first and then reported as failed. Nothing else changes.
pub proof fn law_turned_away_files_are_listed_as_failed(
    a: Manager,
    b: Manager,
    actions: Seq<ActionView>,
    device_id: Seq<char>,
    header: PacketView,
    reason: Seq<char>,
    other: Seq<char>,
)
    requires
        device::turns_away(a, b, actions, device_id, header, reason),
    ensures
        ({
            let id = device::transfer_name((a.sequence() + 1) as nat);
            &&& b.sequence() == a.sequence() + 1
            &&& b.devices() == a.devices()
            &&& b.transfers().contains_key(id)
            &&& b.transfers()[id].device_id == device_id
            &&& b.transfers()[id].direction == "incoming"@
            &&& b.transfers()[id].state == "failed"@
            &&& b.transfers()[id].reason == Some(reason)
            &&& b.transfers()[id].done == 0 && b.transfers()[id].total == 0
            &&& json::text_at(header.body, "filename"@) matches Some(name)
                ==> b.transfers()[id].file_name == name
            &&& other != id ==> (b.transfers().contains_key(other) <==> a.transfers().contains_key(
                other,
            ))
            &&& other != id && a.transfers().contains_key(other) ==> b.transfers()[other]
                == a.transfers()[other]
            &&& actions.len() == 2
            &&& actions[0] matches ActionView::Publish(Event::TransferAdded { id: added, .. })
                && added == id
            &&& actions[1] == ActionView::Publish(Event::TransferFailed { id, reason })
        }),
{
}

/// A file that is fetched is listed under a number of its own, for its device;
/// a file from an unknown device is not.
pub proof fn law_fetched_files_are_listed(
    a: Manager,
    b: Manager,
    actions: Seq<ActionView>,
    device_id: Seq<char>,
    header: PacketView,
    link: Option<u64>,
    other: Seq<char>,
)
    requires
        device::receives(a, b, actions, device_id, header, link),
    ensures
        ({
            let id = device::transfer_name((a.sequence() + 1) as nat);
            &&& b.devices() == a.devices()
            &&& !a.devices().contains_key(device_id) ==> actions.len() == 0 && b.transfers()
                == a.transfers() && b.sequence() == a.sequence()
            &&& a.devices().contains_key(device_id) ==> {
                &&& b.sequence() == a.sequence() + 1
                &&& b.transfers().contains_key(id)
                &&& b.transfers()[id].device_id == device_id
                &&& b.transfers()[id].direction == "incoming"@
                &&& b.transfers()[id].state == "active"@
                &&& b.transfers()[id].done == 0
                &&& !b.transfers()[id].cancelled
                &&& actions.len() == 2
            }
            &&& other != id && a.transfers().contains_key(other) ==> b.transfers().contains_key(
                other,
            ) && b.transfers()[other] == a.transfers()[other]
        }),
{
}

/// A packet of a device is seen by the plugins of that device alone, and there
/// only by those that are switched on and take packets of its type.
pub proof fn law_packets_reach_the_plugins_of_their_device(
    a: Manager,
    b: Manager,
    id: Seq<char>,
    pkt: PacketView,
    env: HostEnv,
    other: Seq<char>,
    j: int,
)
    requires
        device::handled(a, b, id, pkt, env),
        a.handlers().contains_key(id),
    ensures
        b.handlers().contains_key(id),
        b.handlers()[id].len() == a.handlers()[id].len(),
        other != id && a.handlers().contains_key(other) ==> b.handlers().contains_key(other)
            && b.handlers()[other] == a.handlers()[other],
        0 <= j < a.handlers()[id].len() ==> {
            let before = a.handlers()[id][j];
            let after = b.handlers()[id][j];
            let on = device::toggles_at(a.toggles(), id);
            &&& after.described() == before.described()
            &&& device::reaches(before, pkt.ptype, on) ==> after.standing() == before.next(pkt, env)
            &&& !toggles::switched_on(before.described(), on) ==> after == before
            &&& !device::reaches(before, pkt.ptype, on) ==> after == before
        },
{
    if 0 <= j < a.handlers()[id].len() {
        let before = device::plugins_at(a, id);
        let after = device::plugins_at(b, id);
        assert(device::saw(
            after[j],
            before[j],
            device::toggles_at(a.toggles(), id),
            pkt,
            env,
        ));
    }
}

/// Every device is listed once, in the order of the names; devices of one name
/// are in the order of their ids.
pub proof fn law_devices_are_listed_once_in_order(
    ids: Seq<Seq<char>>,
    devices: Map<Seq<char>, DeviceView>,
    i: int,
    j: int,
)
    requires
        device::by_name(ids, devices),
        0 <= i < j < ids.len(),
    ensures
        devices.contains_key(ids[i]),
        forall|id: Seq<char>| #[trigger] devices.contains_key(id) ==> ids.contains(id),
        ids[i] != ids[j],
        !text::before(devices[ids[j]].identity.name, devices[ids[i]].identity.name),
        devices[ids[i]].identity.name == devices[ids[j]].identity.name ==> text::before(
            ids[i],
            ids[j],
        ),
{
    assert(device::listed_before(devices, ids[i], ids[j]));
    assert(ids.to_set().contains(ids[i]));
    assert(devices.dom().contains(ids[i]));
    assert forall|id: Seq<char>| #[trigger] devices.contains_key(id) implies ids.contains(id) by {
        assert(devices.dom().contains(id));
        assert(ids.to_set().contains(id));
    }
    text::lemma_before_total(ids[i], ids[j]);
    text::lemma_before_total(
        devices[ids[i]].identity.name,
        devices[ids[j]].identity.name,
    );
}

/// Every command of a device is listed, with the command that the device gave
/// for it, and nothing else is.
pub proof fn law_every_command_is_listed(
    table: Map<Seq<char>, Seq<char>>,
    known: Seq<char>,
    i: int,
)
    requires
        table.dom().finite(),
    ensures
        0 <= i < device::listed_commands(table).len() ==> {
            let row = device::listed_commands(table)[i];
            &&& json::text_at(row, "name"@) is Some
            &&& table.contains_key(json::text_at(row, "name"@)->0)
            &&& json::text_at(row, "command"@) == Some(table[json::text_at(row, "name"@)->0])
        },
        table.contains_key(known) ==> exists|k: int|
            0 <= k < device::listed_commands(table).len() && json::text_at(
                #[trigger] device::listed_commands(table)[k],
                "name"@,
            ) == Some(known),
{
    ordered::law_listings_are_ordered(table.dom());
    let names = ordered::listing(table.dom());
    if 0 <= i < device::listed_commands(table).len() {
        law_command_rows_give_the_command(names[i], table[names[i]]);
        assert(names.to_set().contains(names[i]));
        assert(table.dom().contains(names[i]));
    }
    if table.contains_key(known) {
        assert(table.dom().contains(known));
        assert(names.to_set().contains(known));
        let k = choose|k: int| 0 <= k < names.len() && names[k] == known;
        law_command_rows_give_the_command(known, table[known]);
        assert(device::listed_commands(table)[k] == device::command_json(known, table[known]));
    }
}

/// A caller whose pairing request could not be sent hears why, and nothing
/// else comes of it: the device is as it was, but for the request.
pub proof fn law_unsent_requests_are_answered(
    devices: Map<Seq<char>, DeviceView>,
    id: Seq<char>,
    why: Seq<char>,
    other: Seq<char>,
)
    requires
        devices.contains_key(id),
        other != id,
    ensures
        ({
            let actions = device::unsent_actions(devices, id, why);
            let after = device::without_pending(devices, id);
            &&& devices[id].pending matches Some(ticket) ==> actions.len() == 1 && answers(
                actions,
                ticket,
                Err(why),
            )
            &&& devices[id].pending is None ==> actions.len() == 0
            &&& after.contains_key(id) && after[id].pending is None
            &&& after[id].pinned == devices[id].pinned
            &&& after[id].outbound == devices[id].outbound
            &&& after[id].identity == devices[id].identity
            &&& after.contains_key(other) <==> devices.contains_key(other)
            &&& devices.contains_key(other) ==> after[other] == devices[other]
        }),
{
    if let Some(ticket) = devices[id].pending {
        let actions = device::unsent_actions(devices, id, why);
        assert(actions[0] == ActionView::AnswerPairing { ticket, answer: Err(why) });
    }
}

} // verus!
