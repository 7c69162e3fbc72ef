//! Device management: live connections, pairing, certificate pinning, plugin
//! dispatch and the transfer registry.
//!
//! One [`Manager`] owns the device table. It takes what happens (an
//! announcement, a connection, a packet, a request) and says what is to be
//! done about it, as a list of [`Action`]s in order.
use super::backends::Materialized;
use super::discovery::{Endpoint, PeerAnnouncement};
use super::stream;
use super::stream::SendView;
use super::toggles;
use crate::base::bus::Event;
use crate::base::paths;
use crate::base::store::DeviceRow;
use crate::base::Error;
use crate::json;
use crate::json::{Json, JsonView, Record};
use crate::ordered;
use crate::ordered::TextMap;
use crate::plugins;
use crate::plugins::battery;
use crate::plugins::battery::BatteryState;
use crate::plugins::meta;
use crate::plugins::notifications;
use crate::plugins::registry;
use crate::plugins::run_commands;
use crate::plugins::run_commands::RunCommandsPlugin;
use crate::plugins::share;
use crate::plugins::sms;
use crate::plugins::{
    HostEnv, MetaView, Plugin, PluginFactory, PluginHost, PluginInstance, PluginMeta, PluginState,
    RegisteredFactory, ReplyView,
};
use crate::protocol::identity;
use crate::protocol::identity::IdentityView;
use crate::protocol::packet;
use crate::protocol::packet::PacketView;
use crate::protocol::tls;
use crate::protocol::transfer::UNKNOWN_SIZE;
use crate::protocol::{
    Identity, Packet, PacketIds, PROTO_VERSION, TYPE_BATTERY_REQUEST, TYPE_CLIPBOARD, TYPE_IDENTITY,
    TYPE_NOTIFICATION, TYPE_PAIR, TYPE_RUNCOMMAND_REQUEST, TYPE_SHARE,
};
use crate::text;
use vstd::prelude::*;

verus! {

/// Seconds a caller waits for a remote pairing decision.
pub const PAIRING_TIMEOUT: u64 = 30;

/// Something that the manager asks for.
#[derive(Debug)]
pub enum Action {
    /// Publish an event.
    Publish(Event),
    /// Queue a packet on a connection.
    Send {
        /// Device that the connection leads to.
        device_id: String,
        /// Connection.
        link: u64,
        /// Packet.
        packet: Packet,
    },
    /// Dial a device that announced itself.
    Dial {
        /// Device that was announced.
        device_id: String,
        /// Where it listens.
        endpoint: Endpoint,
    },
    /// Answer a pairing request of a local caller.
    AnswerPairing {
        /// The caller's ticket.
        ticket: u64,
        /// The remote decision, or why there is none.
        answer: Result<bool, Error>,
    },
    /// Store a device record.
    Store(DeviceRow),
    /// Receive a file.
    Receive {
        /// Transfer.
        transfer_id: String,
        /// Device that sends the file.
        device_id: String,
        /// Name that the sender gave.
        file_name: String,
        /// Announced size; the sentinel where none was announced.
        size: u64,
        /// Data connection; none for an empty file.
        link: Option<u64>,
    },
    /// Remove what a failed transfer left in its staging file.
    Sweep {
        /// Transfer.
        transfer_id: String,
    },
    /// Remove a temporary file that a URI was read into.
    Discard {
        /// Path of the file.
        path: String,
    },
}

/// What an [`Action`] says.
pub enum ActionView {
    /// Publish an event.
    Publish(Event<Seq<char>>),
    /// Queue a packet on a connection.
    Send {
        /// Device that the connection leads to.
        device_id: Seq<char>,
        /// Connection.
        link: u64,
        /// Packet.
        packet: PacketView,
    },
    /// Dial a device.
    Dial {
        /// Device that was announced.
        device_id: Seq<char>,
        /// Where it listens.
        endpoint: Endpoint,
    },
    /// Answer a pairing request.
    AnswerPairing {
        /// The caller's ticket.
        ticket: u64,
        /// The remote decision, or why there is none.
        answer: Result<bool, Seq<char>>,
    },
    /// Store a device record.
    Store(DeviceRow<Seq<char>>),
    /// Receive a file.
    Receive {
        /// Transfer.
        transfer_id: Seq<char>,
        /// Device that sends the file.
        device_id: Seq<char>,
        /// Name that the sender gave.
        file_name: Seq<char>,
        /// Announced size.
        size: u64,
        /// Data connection.
        link: Option<u64>,
    },
    /// Remove what a failed transfer left.
    Sweep {
        /// Transfer.
        transfer_id: Seq<char>,
    },
    /// Remove a temporary file.
    Discard {
        /// Path of the file.
        path: Seq<char>,
    },
}

impl View for Action {
    type V = ActionView;

    open spec fn view(&self) -> ActionView {
        match self {
            Action::Publish(event) => ActionView::Publish(event@),
            Action::Send { device_id, link, packet } => ActionView::Send {
                device_id: device_id@,
                link: *link,
                packet: packet@,
            },
            Action::Dial { device_id, endpoint } => ActionView::Dial {
                device_id: device_id@,
                endpoint: *endpoint,
            },
            Action::AnswerPairing { ticket, answer } => ActionView::AnswerPairing {
                ticket: *ticket,
                answer: match answer {
                    Ok(accepted) => Ok(*accepted),
                    Err(e) => Err(e.text()),
                },
            },
            Action::Store(row) => ActionView::Store(row@),
            Action::Receive { transfer_id, device_id, file_name, size, link } => {
                ActionView::Receive {
                    transfer_id: transfer_id@,
                    device_id: device_id@,
                    file_name: file_name@,
                    size: *size,
                    link: *link,
                }
            },
            Action::Sweep { transfer_id } => ActionView::Sweep { transfer_id: transfer_id@ },
            Action::Discard { path } => ActionView::Discard { path: path@ },
        }
    }
}

/// What a list of actions says.
pub open spec fn actions_view(v: Seq<Action>) -> Seq<ActionView> {
    v.map_values(|a: Action| a@)
}

/// Everything the manager knows about one remote device.
#[derive(Debug)]
pub struct DeviceState {
    identity: Identity,
    addr: Option<Endpoint>,
    live_fingerprint: Option<String>,
    pinned_fingerprint: Option<String>,
    outbound: Option<u64>,
    pending_pair: Option<u64>,
    plugins: Vec<PluginInstance>,
}

/// What the manager knows about one remote device, but for its plugins.
pub struct DeviceView {
    /// What the device says of itself.
    pub identity: IdentityView,
    /// Last advertised address.
    pub addr: Option<Endpoint>,
    /// Fingerprint of the current connection's certificate.
    pub live: Option<Seq<char>>,
    /// Fingerprint of the certificate that the device was paired with.
    pub pinned: Option<Seq<char>>,
    /// The current connection.
    pub outbound: Option<u64>,
    /// Ticket of the local caller that waits for a pairing decision.
    pub pending: Option<u64>,
}

impl View for DeviceState {
    type V = DeviceView;

    closed spec fn view(&self) -> DeviceView {
        DeviceView {
            identity: self.identity@,
            addr: self.addr,
            live: battery::optional_text(self.live_fingerprint),
            pinned: battery::optional_text(self.pinned_fingerprint),
            outbound: self.outbound,
            pending: self.pending_pair,
        }
    }
}

/// A device of which only the identity is known.
pub open spec fn new_device(identity: IdentityView) -> DeviceView {
    DeviceView { identity, addr: None, live: None, pinned: None, outbound: None, pending: None }
}

/// Whether the plugins are what the factories build, in their order, and
/// nothing has happened to them yet.
pub open spec fn built_by(plugins: Seq<PluginInstance>, factories: Seq<RegisteredFactory>) -> bool {
    plugins.len() == factories.len() && forall|i: int|
        0 <= i < plugins.len() ==> (#[trigger] plugins[i]).described() == factories[i].describes()
            && plugins[i].standing() == factories[i].initial()
}

impl DeviceState {
    /// The device's plugins.
    pub closed spec fn handlers(&self) -> Seq<PluginInstance> {
        self.plugins@
    }

    fn new(identity: Identity, factories: &Vec<RegisteredFactory>) -> (r: Self)
        ensures
            r@ == new_device(identity@),
            built_by(r.handlers(), factories@),
    {
        let mut built: Vec<PluginInstance> = Vec::new();
        let mut i: usize = 0;
        while i < factories.len()
            invariant
                i <= factories.len(),
                built_by(built@, factories@.take(i as int)),
            decreases factories.len() - i,
        {
            built.push(factories[i].create());
            i += 1;
        }
        assert(factories@.take(i as int) =~= factories@);
        DeviceState {
            identity,
            addr: None,
            live_fingerprint: None,
            pinned_fingerprint: None,
            outbound: None,
            pending_pair: None,
            plugins: built,
        }
    }
}

/// What a device table says.
pub open spec fn devices_view(m: Map<Seq<char>, DeviceState>) -> Map<Seq<char>, DeviceView> {
    m.map_values(|d: DeviceState| d@)
}

/// The plugins of each device.
pub open spec fn plugins_view(m: Map<Seq<char>, DeviceState>) -> Map<Seq<char>, Seq<PluginInstance>> {
    m.map_values(|d: DeviceState| d.handlers())
}

/// The toggles of each device's plugins.
pub open spec fn switches_view(m: Map<Seq<char>, TextMap<bool>>) -> Map<
    Seq<char>,
    Map<Seq<char>, bool>,
> {
    m.map_values(|t: TextMap<bool>| t@)
}

/// The toggles of the device at `id`; where none was set there are none.
pub open spec fn toggles_at(m: Map<Seq<char>, Map<Seq<char>, bool>>, id: Seq<char>) -> Map<
    Seq<char>,
    bool,
> {
    if m.contains_key(id) {
        m[id]
    } else {
        Map::empty()
    }
}

/// The toggles of all devices after a plugin of one was switched on or off.
pub open spec fn after_switch(
    m: Map<Seq<char>, Map<Seq<char>, bool>>,
    id: Seq<char>,
    plugin: Seq<char>,
    enabled: bool,
) -> Map<Seq<char>, Map<Seq<char>, bool>> {
    m.insert(id, toggles_at(m, id).insert(plugin, enabled))
}

/// Registry entry for one transfer; `S` is the type of its texts.
#[derive(Debug)]
pub struct TransferRecord<S = String> {
    /// Peer device.
    pub device_id: S,
    /// Direction label (`"outgoing"` or `"incoming"`).
    pub direction: S,
    /// Name of the file.
    pub file_name: S,
    /// Total size in bytes.
    pub total: u64,
    /// State label (`"active"`, `"finished"` or `"failed"`).
    pub state: S,
    /// Bytes moved.
    pub done: u64,
    /// Why the transfer failed.
    pub reason: Option<S>,
    /// Whether the user wants the transfer to stop.
    pub cancelled: bool,
    /// Temporary file to remove once the transfer is over.
    pub cleanup: Option<S>,
}

impl View for TransferRecord<String> {
    type V = TransferRecord<Seq<char>>;

    open spec fn view(&self) -> TransferRecord<Seq<char>> {
        TransferRecord {
            device_id: self.device_id@,
            direction: self.direction@,
            file_name: self.file_name@,
            total: self.total,
            state: self.state@,
            done: self.done,
            reason: battery::optional_text(self.reason),
            cancelled: self.cancelled,
            cleanup: battery::optional_text(self.cleanup),
        }
    }
}

/// What a transfer registry says.
pub open spec fn records_view(
    m: Map<Seq<char>, TransferRecord>,
) -> Map<Seq<char>, TransferRecord<Seq<char>>> {
    m.map_values(|t: TransferRecord| t@)
}

/// The device manager.
#[derive(Debug)]
pub struct Manager {
    devices: TextMap<DeviceState>,
    self_device_id: String,
    factories: Vec<RegisteredFactory>,
    transfers: TextMap<TransferRecord>,
    next_transfer_seq: u64,
    toggles: TextMap<TextMap<bool>>,
    host: PluginHost,
}

/// The id of the `n`-th transfer.
pub open spec fn transfer_name(n: nat) -> Seq<char> {
    "t"@ + text::decimal(n)
}

/// Whether every registered transfer has one of the ids given out so far.
pub open spec fn ids_given_out(
    transfers: Map<Seq<char>, TransferRecord<Seq<char>>>,
    sequence: u64,
) -> bool {
    forall|id: Seq<char>| #[trigger]
        transfers.contains_key(id) ==> exists|k: nat|
            1 <= k <= sequence && id == #[trigger] transfer_name(k)
}

/// No two transfers get one id.
pub proof fn law_transfer_ids_are_fresh(
    transfers: Map<Seq<char>, TransferRecord<Seq<char>>>,
    sequence: u64,
)
    requires
        ids_given_out(transfers, sequence),
    ensures
        !transfers.contains_key(transfer_name((sequence + 1) as nat)),
{
    let fresh = transfer_name((sequence + 1) as nat);
    if transfers.contains_key(fresh) {
        let k = choose|k: nat| 1 <= k <= sequence && fresh == #[trigger] transfer_name(k);
        reveal_strlit("t");
        assert(fresh.skip(1) =~= text::decimal((sequence + 1) as nat));
        assert(transfer_name(k).skip(1) =~= text::decimal(k));
        text::lemma_decimal_injective(k, (sequence + 1) as nat);
    }
}

/// A transfer that has just been registered.
pub open spec fn new_record(
    device_id: Seq<char>,
    direction: Seq<char>,
    file_name: Seq<char>,
    total: u64,
    cleanup: Option<Seq<char>>,
) -> TransferRecord<Seq<char>> {
    TransferRecord {
        device_id,
        direction,
        file_name,
        total,
        state: "active"@,
        done: 0,
        reason: None,
        cancelled: false,
        cleanup,
    }
}

/// The removal of a temporary file, where there is one.
pub open spec fn discards(cleanup: Option<Seq<char>>) -> Seq<ActionView> {
    match cleanup {
        Some(path) => seq![ActionView::Discard { path }],
        None => Seq::empty(),
    }
}

/// The temporary file that a transfer leaves behind when it is over.
pub open spec fn cleanup_of(
    transfers: Map<Seq<char>, TransferRecord<Seq<char>>>,
    id: Seq<char>,
) -> Option<Seq<char>> {
    if transfers.contains_key(id) {
        transfers[id].cleanup
    } else {
        None
    }
}

/// A transfer that finished.
pub open spec fn finished(t: TransferRecord<Seq<char>>) -> TransferRecord<Seq<char>> {
    TransferRecord { state: "finished"@, reason: None, cleanup: None, ..t }
}

/// A transfer that failed.
pub open spec fn failed(t: TransferRecord<Seq<char>>, reason: Seq<char>) -> TransferRecord<
    Seq<char>,
> {
    TransferRecord { state: "failed"@, reason: Some(reason), cleanup: None, ..t }
}

/// The event about a registered transfer.
pub open spec fn added_event(id: Seq<char>, t: TransferRecord<Seq<char>>) -> Event<Seq<char>> {
    Event::TransferAdded {
        id,
        device_id: t.device_id,
        direction: t.direction,
        file_name: t.file_name,
        total: t.total,
    }
}

/// A change of a device's state label.
pub open spec fn state_event(id: Seq<char>, state: Seq<char>) -> Event<Seq<char>> {
    Event::DeviceStateChanged { id, state }
}

/// Where the device at `id` is connected, if it is.
pub open spec fn link_of(devices: Map<Seq<char>, DeviceView>, id: Seq<char>) -> Option<u64> {
    if devices.contains_key(id) {
        devices[id].outbound
    } else {
        None
    }
}

/// The identity of a device that is known by its stored record alone.
pub open spec fn stored_identity(row: DeviceRow<Seq<char>>) -> IdentityView {
    IdentityView {
        device_id: row.device_id,
        name: row.name,
        device_type: row.device_type,
        protocol_version: PROTO_VERSION,
        incoming: Seq::empty(),
        outgoing: Seq::empty(),
        tcp_source_port: 0,
    }
}

/// The device that a stored record stands for: offline, with its fingerprint
/// pinned where it is paired.
pub open spec fn stored_device(row: DeviceRow<Seq<char>>) -> DeviceView {
    DeviceView {
        pinned: if row.paired {
            Some(row.cert_fingerprint)
        } else {
            None
        },
        ..new_device(stored_identity(row))
    }
}

/// The device table with the stored records put into it, but for this
/// device's own.
pub open spec fn restored(
    devices: Map<Seq<char>, DeviceView>,
    rows: Seq<DeviceRow<Seq<char>>>,
    self_id: Seq<char>,
) -> Map<Seq<char>, DeviceView>
    decreases rows.len(),
{
    if rows.len() == 0 {
        devices
    } else {
        let before = restored(devices, rows.drop_last(), self_id);
        if rows.last().device_id == self_id {
            before
        } else {
            before.insert(rows.last().device_id, stored_device(rows.last()))
        }
    }
}

/// Whether the devices that stored records stand for, but for this device's
/// own, got plugins that nothing has happened to yet, and no other plugin
/// changed.
pub open spec fn equips_restored(
    a: Manager,
    b: Manager,
    rows: Seq<DeviceRow<Seq<char>>>,
) -> bool {
    &&& forall|id: Seq<char>| #[trigger]
        b.handlers().contains_key(id) <==> a.handlers().contains_key(id) || restores(
            rows,
            id,
            a.own_id(),
        )
    &&& forall|id: Seq<char>|
        restores(rows, id, a.own_id()) ==> built_by(#[trigger] b.handlers()[id], a.kinds())
    &&& forall|id: Seq<char>|
        a.handlers().contains_key(id) && !restores(rows, id, a.own_id())
            ==> #[trigger] b.handlers()[id] == a.handlers()[id]
}

/// Whether stored records stand for the device at `id`.
pub open spec fn restores(
    rows: Seq<DeviceRow<Seq<char>>>,
    id: Seq<char>,
    self_id: Seq<char>,
) -> bool {
    id != self_id && exists|i: int| 0 <= i < rows.len() && (#[trigger] rows[i]).device_id == id
}

/// What a list of stored records says.
pub open spec fn rows_view(v: Seq<DeviceRow>) -> Seq<DeviceRow<Seq<char>>> {
    v.map_values(|r: DeviceRow| r@)
}

/// The device after an announcement.
pub open spec fn announced_device(
    devices: Map<Seq<char>, DeviceView>,
    who: IdentityView,
    endpoint: Endpoint,
) -> DeviceView {
    let before = if devices.contains_key(who.device_id) {
        devices[who.device_id]
    } else {
        new_device(who)
    };
    DeviceView { identity: who, addr: Some(endpoint), ..before }
}

/// What an announcement leads to: a new device is reported, and a device that
/// is not connected is dialed.
pub open spec fn announcement_actions(
    devices: Map<Seq<char>, DeviceView>,
    who: IdentityView,
    endpoint: Endpoint,
) -> Seq<ActionView> {
    let found = if devices.contains_key(who.device_id) {
        Seq::empty()
    } else {
        seq![ActionView::Publish(Event::DeviceFound { id: who.device_id, name: who.name })]
    };
    if link_of(devices, who.device_id) is None {
        found.push(ActionView::Dial { device_id: who.device_id, endpoint })
    } else {
        found
    }
}

/// Whether a connection that presents the certificate with this fingerprint
/// is let in: a paired device must present the one that it was paired with.
pub open spec fn lets_in(
    devices: Map<Seq<char>, DeviceView>,
    id: Seq<char>,
    fingerprint: Seq<char>,
) -> bool {
    devices.contains_key(id) ==> match devices[id].pinned {
        Some(pinned) => pinned == fingerprint,
        None => true,
    }
}

/// What is said of a connection that presents another certificate than the
/// pinned one.
pub open spec fn mismatch_text(id: Seq<char>) -> Seq<char> {
    "cert mismatch for "@ + id + ": possible spoofing"@
}

/// Why no file is fetched over a data connection, if none is. `payload` is
/// the connection with the fingerprint of the certificate that its far end
/// presented, or why there is no connection. The far end must be let in, as on
/// a control connection.
pub open spec fn payload_refusal(
    devices: Map<Seq<char>, DeviceView>,
    id: Seq<char>,
    payload: Result<(u64, Seq<u8>), Seq<char>>,
) -> Option<Seq<char>> {
    match payload {
        Ok((_, print)) => if lets_in(devices, id, tls::hex_text(print)) {
            None
        } else {
            Some(mismatch_text(id))
        },
        Err(reason) => Some(reason),
    }
}

/// The outcome of dialing a data connection, with its parts viewed.
pub open spec fn payload_view(payload: Result<(u64, Vec<u8>), String>) -> Result<
    (u64, Seq<u8>),
    Seq<char>,
> {
    match payload {
        Ok((link, print)) => Ok((link, print@)),
        Err(reason) => Err(reason@),
    }
}

/// The identity of a device that connected without having announced itself.
pub open spec fn shell_identity(id: Seq<char>) -> IdentityView {
    IdentityView {
        device_id: id,
        name: id,
        device_type: "unknown"@,
        protocol_version: PROTO_VERSION,
        incoming: Seq::empty(),
        outgoing: Seq::empty(),
        tcp_source_port: 0,
    }
}

/// The device table after a connection that is let in.
pub open spec fn after_connected(
    devices: Map<Seq<char>, DeviceView>,
    id: Seq<char>,
    fingerprint: Seq<char>,
    link: u64,
) -> Map<Seq<char>, DeviceView> {
    let before = if devices.contains_key(id) {
        devices[id]
    } else {
        new_device(shell_identity(id))
    };
    devices.insert(
        id,
        DeviceView { outbound: Some(link), live: Some(fingerprint), ..before },
    )
}

/// The device table after a connection closed.
pub open spec fn after_closed(
    devices: Map<Seq<char>, DeviceView>,
    id: Seq<char>,
) -> Map<Seq<char>, DeviceView> {
    if devices.contains_key(id) {
        devices.insert(
            id,
            DeviceView { outbound: None, live: None, pending: None, ..devices[id] },
        )
    } else {
        devices
    }
}

/// The fingerprint that is pinned when trust is given: that of the current
/// connection, else the one that was pinned before.
pub open spec fn trusted_fingerprint(d: DeviceView) -> Seq<char> {
    match (d.live, d.pinned) {
        (Some(live), _) => live,
        (None, Some(pinned)) => pinned,
        (None, None) => Seq::empty(),
    }
}

/// The device table after trust was given or withdrawn.
pub open spec fn after_trust(
    devices: Map<Seq<char>, DeviceView>,
    id: Seq<char>,
    paired: bool,
) -> Map<Seq<char>, DeviceView> {
    if devices.contains_key(id) {
        devices.insert(
            id,
            DeviceView {
                pinned: if paired {
                    Some(trusted_fingerprint(devices[id]))
                } else {
                    None
                },
                ..devices[id]
            },
        )
    } else {
        devices
    }
}

/// Seconds since the Unix epoch.
pub open spec fn unix_seconds(now_ms: u64) -> i64 {
    (now_ms / 1000) as i64
}

/// What giving or withdrawing trust leads to: the record is stored and the
/// new state published.
pub open spec fn trust_actions(
    devices: Map<Seq<char>, DeviceView>,
    id: Seq<char>,
    paired: bool,
    now_ms: u64,
) -> Seq<ActionView> {
    if devices.contains_key(id) {
        seq![
            ActionView::Store(
                DeviceRow {
                    device_id: id,
                    name: devices[id].identity.name,
                    device_type: devices[id].identity.device_type,
                    cert_fingerprint: if paired {
                        trusted_fingerprint(devices[id])
                    } else {
                        Seq::empty()
                    },
                    paired,
                    last_seen: Some(unix_seconds(now_ms)),
                },
            ),
            ActionView::Publish(
                state_event(
                    id,
                    if paired {
                        "paired"@
                    } else {
                        "unpaired"@
                    },
                ),
            ),
        ]
    } else {
        Seq::empty()
    }
}

/// The body of a pair packet.
pub open spec fn pair_json(wanted: bool) -> JsonView {
    JsonView::Object(
        Map::<Seq<char>, JsonView>::empty().insert("pair"@, JsonView::Bool(wanted)),
    )
}

/// A pair packet to a device, where it is connected.
pub open spec fn pair_message(
    devices: Map<Seq<char>, DeviceView>,
    id: Seq<char>,
    wanted: bool,
    packet_id: i64,
) -> Seq<ActionView> {
    match link_of(devices, id) {
        Some(link) => seq![
            ActionView::Send {
                device_id: id,
                link,
                packet: packet::plain_packet(packet_id, TYPE_PAIR@, pair_json(wanted)),
            },
        ],
        None => Seq::empty(),
    }
}

/// The ticket of the local caller that waits for a device's decision.
pub open spec fn pending_of(devices: Map<Seq<char>, DeviceView>, id: Seq<char>) -> Option<u64> {
    if devices.contains_key(id) {
        devices[id].pending
    } else {
        None
    }
}

/// The device table with no caller waiting for a device's decision.
pub open spec fn without_pending(
    devices: Map<Seq<char>, DeviceView>,
    id: Seq<char>,
) -> Map<Seq<char>, DeviceView> {
    if devices.contains_key(id) {
        devices.insert(id, DeviceView { pending: None, ..devices[id] })
    } else {
        devices
    }
}

/// What a pair packet from a device does to the device table.
pub open spec fn after_pair_packet(
    devices: Map<Seq<char>, DeviceView>,
    id: Seq<char>,
    wants: Option<bool>,
    auto_accept: bool,
) -> Map<Seq<char>, DeviceView> {
    match (wants, pending_of(devices, id)) {
        (None, _) => devices,
        (Some(true), Some(_)) => after_trust(without_pending(devices, id), id, true),
        (Some(false), Some(_)) => without_pending(devices, id),
        (Some(true), None) => if auto_accept && link_of(devices, id) is Some {
            after_trust(devices, id, true)
        } else {
            devices
        },
        (Some(false), None) => after_trust(devices, id, false),
    }
}

/// Whether a pair packet makes the manager write one of its own.
pub open spec fn answers_pair_packet(
    devices: Map<Seq<char>, DeviceView>,
    id: Seq<char>,
    wants: Option<bool>,
) -> bool {
    wants == Some(true) && pending_of(devices, id) is None
}

/// What a pair packet from a device leads to.
pub open spec fn pair_packet_actions(
    devices: Map<Seq<char>, DeviceView>,
    id: Seq<char>,
    wants: Option<bool>,
    auto_accept: bool,
    now_ms: u64,
    packet_id: i64,
) -> Seq<ActionView> {
    match (wants, pending_of(devices, id)) {
        (None, _) => Seq::empty(),
        (Some(accepted), Some(ticket)) => {
            let answer = seq![ActionView::AnswerPairing { ticket, answer: Ok(accepted) }];
            if accepted {
                answer + trust_actions(devices, id, true, now_ms)
            } else {
                answer
            }
        },
        (Some(true), None) => {
            let accepted = auto_accept && link_of(devices, id) is Some;
            if accepted {
                trust_actions(devices, id, true, now_ms) + pair_message(
                    devices,
                    id,
                    true,
                    packet_id,
                )
            } else {
                pair_message(devices, id, false, packet_id)
            }
        },
        (Some(false), None) => trust_actions(devices, id, false, now_ms).push(
            ActionView::Publish(state_event(id, "unpaired"@)),
        ),
    }
}

/// Whether a packet of a type reaches a plugin: it must take the type and be
/// switched on.
pub open spec fn reaches(
    plugin: PluginInstance,
    ptype: Seq<char>,
    toggles: Map<Seq<char>, bool>,
) -> bool {
    plugin.described().incoming.contains(ptype) && toggles::switched_on(
        plugin.described(),
        toggles,
    )
}

/// What the plugins of a device answer to a packet, one after the other.
pub open spec fn dispatched(
    plugins: Seq<PluginInstance>,
    toggles: Map<Seq<char>, bool>,
    pkt: PacketView,
    env: HostEnv,
) -> Seq<ReplyView>
    decreases plugins.len(),
{
    if plugins.len() == 0 {
        Seq::empty()
    } else {
        let before = dispatched(plugins.drop_last(), toggles, pkt, env);
        if reaches(plugins.last(), pkt.ptype, toggles) {
            before + plugins.last().replies(pkt, env)
        } else {
            before
        }
    }
}

/// The battery states of the devices after the plugins of one have seen a
/// packet.
pub open spec fn mirrored(
    plugins: Seq<PluginInstance>,
    toggles: Map<Seq<char>, bool>,
    pkt: PacketView,
    env: HostEnv,
    batteries: Map<Seq<char>, BatteryState>,
) -> Map<Seq<char>, BatteryState>
    decreases plugins.len(),
{
    if plugins.len() == 0 {
        batteries
    } else {
        let before = mirrored(plugins.drop_last(), toggles, pkt, env, batteries);
        if reaches(plugins.last(), pkt.ptype, toggles) {
            plugins.last().mirrored(pkt, env, before)
        } else {
            before
        }
    }
}

/// The events that a packet gives rise to beside its handling.
pub open spec fn side_events(pkt: PacketView) -> Seq<Event<Seq<char>>> {
    if pkt.ptype == TYPE_NOTIFICATION@ {
        seq![
            Event::NotificationReceived {
                id: notifications::text_or_empty(pkt.body, "id"@),
                app: notifications::text_or_empty(pkt.body, "appName"@),
                title: notifications::text_or_empty(pkt.body, "title"@),
                body: notifications::text_or_empty(pkt.body, "text"@),
            },
        ]
    } else if pkt.ptype == TYPE_CLIPBOARD@ {
        match json::text_at(pkt.body, "content"@) {
            Some(content) => seq![Event::ClipboardUpdated { text: content }],
            None => Seq::empty(),
        }
    } else {
        Seq::empty()
    }
}

/// Packets queued on a connection.
pub open spec fn sends(id: Seq<char>, link: Option<u64>, packets: Seq<PacketView>) -> Seq<
    ActionView,
> {
    match link {
        Some(link) => packets.map_values(
            |p: PacketView| ActionView::Send { device_id: id, link, packet: p },
        ),
        None => Seq::empty(),
    }
}

/// Events to publish.
pub open spec fn published(events: Seq<Event<Seq<char>>>) -> Seq<ActionView> {
    events.map_values(|e: Event<Seq<char>>| ActionView::Publish(e))
}

/// The name of the file that a share header announces.
pub open spec fn announced_name(header: PacketView) -> Seq<char> {
    match json::text_at(header.body, "filename"@) {
        Some(name) => name,
        None => "received-file"@,
    }
}

/// The size that a share header announces; a negative one is unknown.
pub open spec fn announced_size(header: PacketView) -> u64 {
    match header.payload_size {
        Some(n) => if n < 0 {
            UNKNOWN_SIZE
        } else {
            n as u64
        },
        None => 0,
    }
}

/// The record of an inbound transfer.
pub open spec fn incoming_record(id: Seq<char>, header: PacketView) -> TransferRecord<Seq<char>> {
    let size = announced_size(header);
    new_record(
        id,
        "incoming"@,
        announced_name(header),
        if size == UNKNOWN_SIZE {
            0
        } else {
            size
        },
        None,
    )
}

/// Whether a packet is handled as the share of an empty file.
pub open spec fn is_empty_file_share(pkt: PacketView) -> bool {
    pkt.ptype == TYPE_SHARE@ && json::member(pkt.body, "filename"@) is Some
}

/// Why pairing with a device cannot begin, if it cannot.
pub open spec fn pairing_refusal(devices: Map<Seq<char>, DeviceView>, id: Seq<char>) -> Option<
    Seq<char>,
> {
    if !devices.contains_key(id) {
        Some("unknown device '"@ + id + "'"@)
    } else if devices[id].outbound is None {
        Some("device not connected yet; wait for discovery"@)
    } else if devices[id].pinned is Some {
        Some("already paired"@)
    } else {
        None
    }
}

/// The answer to an earlier caller whose request is replaced.
pub open spec fn superseded(pending: Option<u64>) -> Seq<ActionView> {
    match pending {
        Some(ticket) => seq![
            ActionView::AnswerPairing { ticket, answer: Err("pairing answer channel dropped"@) },
        ],
        None => Seq::empty(),
    }
}

/// The device table after a local caller asked to pair with a device.
pub open spec fn after_begin(
    devices: Map<Seq<char>, DeviceView>,
    id: Seq<char>,
    ticket: u64,
) -> Map<Seq<char>, DeviceView> {
    if pairing_refusal(devices, id) is None {
        devices.insert(id, DeviceView { pending: Some(ticket), ..devices[id] })
    } else {
        devices
    }
}

/// What a local caller's wish to pair with a device leads to.
pub open spec fn begin_actions(
    devices: Map<Seq<char>, DeviceView>,
    id: Seq<char>,
    ticket: u64,
    packet_id: i64,
) -> Seq<ActionView> {
    match pairing_refusal(devices, id) {
        Some(why) => seq![ActionView::AnswerPairing { ticket, answer: Err(why) }],
        None => superseded(pending_of(devices, id)) + pair_message(devices, id, true, packet_id),
    }
}

/// What revoking trust in a device leads to.
pub open spec fn unpair_actions(
    devices: Map<Seq<char>, DeviceView>,
    id: Seq<char>,
    now_ms: u64,
    packet_id: i64,
) -> Seq<ActionView> {
    pair_message(devices, id, false, packet_id) + trust_actions(devices, id, false, now_ms)
}

/// What is published about a connection.
pub open spec fn connected_event(
    devices: Map<Seq<char>, DeviceView>,
    id: Seq<char>,
    fingerprint: Seq<char>,
) -> Event<Seq<char>> {
    if !lets_in(devices, id, fingerprint) {
        Event::LogRecord { level: "error"@, msg: mismatch_text(id) }
    } else if devices.contains_key(id) {
        state_event(id, "online"@)
    } else {
        Event::DeviceFound { id, name: "unknown"@ }
    }
}

/// What the end of a connection leads to.
pub open spec fn closed_actions(devices: Map<Seq<char>, DeviceView>, id: Seq<char>) -> Seq<
    ActionView,
> {
    match pending_of(devices, id) {
        Some(ticket) => seq![
            ActionView::AnswerPairing { ticket, answer: Err("connection closed during pairing"@) },
            ActionView::Publish(state_event(id, "offline"@)),
        ],
        None => seq![ActionView::Publish(state_event(id, "offline"@))],
    }
}

/// The transfer registry once the share header of a file was queued.
pub open spec fn after_send(
    transfers: Map<Seq<char>, TransferRecord<Seq<char>>>,
    id: Seq<char>,
    s: Sending<Seq<char>>,
) -> Map<Seq<char>, TransferRecord<Seq<char>>> {
    transfers.insert(
        id,
        if s.size == 0 {
            finished(outgoing_record(s))
        } else {
            outgoing_record(s)
        },
    )
}

/// What a queued share header leads to.
pub open spec fn send_actions(id: Seq<char>, s: Sending<Seq<char>>) -> Seq<ActionView> {
    if s.size == 0 {
        seq![
            ActionView::Publish(added_event(id, outgoing_record(s))),
            ActionView::Publish(Event::TransferFinished { id }),
        ] + discards(s.cleanup)
    } else {
        seq![ActionView::Publish(added_event(id, outgoing_record(s)))]
    }
}

/// How a stream ended, with its reason viewed.
pub open spec fn outcome_view(result: Result<(), String>) -> Result<(), Seq<char>> {
    match result {
        Ok(()) => Ok(()),
        Err(reason) => Err(reason@),
    }
}

/// The transfer registry after a stream ended.
pub open spec fn after_outcome(
    transfers: Map<Seq<char>, TransferRecord<Seq<char>>>,
    id: Seq<char>,
    result: Result<(), Seq<char>>,
) -> Map<Seq<char>, TransferRecord<Seq<char>>> {
    if transfers.contains_key(id) {
        transfers.insert(
            id,
            match result {
                Ok(()) => finished(transfers[id]),
                Err(reason) => failed(transfers[id], reason),
            },
        )
    } else {
        transfers
    }
}

/// What the end of a stream leads to.
pub open spec fn outcome_actions(
    transfers: Map<Seq<char>, TransferRecord<Seq<char>>>,
    id: Seq<char>,
    result: Result<(), Seq<char>>,
) -> Seq<ActionView> {
    discards(cleanup_of(transfers, id)) + match result {
        Ok(()) => seq![ActionView::Publish(Event::TransferFinished { id })],
        Err(reason) => seq![
            ActionView::Sweep { transfer_id: id },
            ActionView::Publish(Event::TransferFailed { id, reason }),
        ],
    }
}

/// The transfer registry after the user asked to cancel a transfer.
pub open spec fn after_cancel(
    transfers: Map<Seq<char>, TransferRecord<Seq<char>>>,
    id: Seq<char>,
) -> Map<Seq<char>, TransferRecord<Seq<char>>> {
    if cancel_refusal(transfers, id) is None {
        transfers.insert(id, TransferRecord { cancelled: true, ..transfers[id] })
    } else {
        transfers
    }
}

/// Whether the user wants a transfer to stop.
pub open spec fn wants_stop(
    transfers: Map<Seq<char>, TransferRecord<Seq<char>>>,
    id: Seq<char>,
) -> bool {
    transfers.contains_key(id) && transfers[id].cancelled
}

/// The device table after a packet.
pub open spec fn after_packet(
    devices: Map<Seq<char>, DeviceView>,
    id: Seq<char>,
    pkt: PacketView,
    auto_accept: bool,
) -> Map<Seq<char>, DeviceView> {
    if pkt.ptype == TYPE_IDENTITY@ {
        after_identity(devices, id, pkt.body)
    } else if pkt.ptype == TYPE_PAIR@ {
        after_pair_packet(devices, id, json::flag_at(pkt.body, "pair"@), auto_accept)
    } else {
        devices
    }
}

/// What a packet leads to, where it does not share an empty file. `plugins`
/// are those of the device and `toggles` its toggles.
pub open spec fn packet_actions(
    devices: Map<Seq<char>, DeviceView>,
    id: Seq<char>,
    pkt: PacketView,
    auto_accept: bool,
    plugins: Seq<PluginInstance>,
    toggles: Map<Seq<char>, bool>,
    env: HostEnv,
    latest: i64,
) -> Seq<ActionView> {
    if pkt.ptype == TYPE_IDENTITY@ {
        Seq::empty()
    } else if pkt.ptype == TYPE_PAIR@ {
        pair_packet_actions(
            devices,
            id,
            json::flag_at(pkt.body, "pair"@),
            auto_accept,
            env.now,
            packet::successor(latest),
        )
    } else {
        published(side_events(pkt)) + sends(
            id,
            link_of(devices, id),
            plugins::numbered(dispatched(plugins, toggles, pkt, env), latest),
        )
    }
}

/// Whether two states of a manager are set up alike: they have the same
/// identity, build plugins alike and have the same plugins switched on.
pub open spec fn same_setup(a: Manager, b: Manager) -> bool {
    a.own_id() == b.own_id() && a.kinds() == b.kinds() && a.toggles() == b.toggles()
}

/// Whether two states of a manager agree on transfers.
pub open spec fn same_transfers(a: Manager, b: Manager) -> bool {
    a.transfers() == b.transfers() && a.sequence() == b.sequence()
}

/// Whether two states of a manager agree on devices, their plugins and their
/// batteries.
pub open spec fn same_devices(a: Manager, b: Manager) -> bool {
    a.devices() == b.devices() && a.handlers() == b.handlers() && a.batteries() == b.batteries()
}

/// Whether a device got plugins, where it is new, and no other plugin
/// changed.
pub open spec fn equips(a: Manager, b: Manager, id: Seq<char>) -> bool {
    if a.handlers().contains_key(id) {
        b.handlers() == a.handlers()
    } else {
        b.handlers() == a.handlers().insert(id, b.handlers()[id]) && built_by(
            b.handlers()[id],
            a.kinds(),
        )
    }
}

fn publish(event: Event) -> (r: Vec<Action>)
    ensures
        actions_view(r@) == seq![ActionView::Publish(event@)],
{
    let mut r: Vec<Action> = Vec::new();
    let ghost e = event@;
    r.push(Action::Publish(event));
    assert(actions_view(r@) =~= seq![ActionView::Publish(e)]);
    r
}

fn nothing() -> (r: Vec<Action>)
    ensures
        actions_view(r@) == Seq::<ActionView>::empty(),
{
    let r: Vec<Action> = Vec::new();
    assert(actions_view(r@) =~= Seq::<ActionView>::empty());
    r
}

/// Removes a temporary file, where there is one.
fn discard(cleanup: &Option<String>) -> (r: Vec<Action>)
    ensures
        actions_view(r@) == discards(battery::optional_text(*cleanup)),
{
    let mut r = nothing();
    if let Some(path) = cleanup {
        ask(&mut r, Action::Discard { path: path.clone() });
    }
    assert(actions_view(r@) =~= discards(battery::optional_text(*cleanup)));
    r
}

/// Copies an optional path.
fn copy_path(path: &Option<String>) -> (r: Option<String>)
    ensures
        battery::optional_text(r) == battery::optional_text(*path),
{
    match path {
        Some(p) => Some(p.clone()),
        None => None,
    }
}

/// A share is neither an identity nor a pairing request.
pub(crate) proof fn lemma_share_is_neither()
    ensures
        TYPE_SHARE@ != TYPE_IDENTITY@,
        TYPE_SHARE@ != TYPE_PAIR@,
        TYPE_PAIR@ != TYPE_IDENTITY@,
{
    reveal_strlit("kdeconnect.share.request");
    reveal_strlit("kdeconnect.identity");
    reveal_strlit("kdeconnect.pair");
    assert(TYPE_SHARE@.len() == 24 && TYPE_IDENTITY@.len() == 19 && TYPE_PAIR@.len() == 15);
}

/// Adds an action to a list.
fn ask(list: &mut Vec<Action>, action: Action)
    ensures
        actions_view(final(list)@) == actions_view(old(list)@).push(action@),
{
    let ghost a = action@;
    list.push(action);
    assert(actions_view(list@) =~= actions_view(old(list)@).push(a));
}

/// Adds a list of actions to another.
fn ask_all(list: &mut Vec<Action>, more: Vec<Action>)
    ensures
        actions_view(final(list)@) == actions_view(old(list)@) + actions_view(more@),
{
    let mut rest = more;
    list.append(&mut rest);
    assert(actions_view(list@) =~= actions_view(old(list)@) + actions_view(more@));
}

/// The body of a pair packet.
fn pair_body(wanted: bool) -> (r: Json)
    ensures
        r@ == pair_json(wanted),
{
    Record::new().with("pair", Json::Bool(wanted)).done()
}

/// What the failure to send a pairing request leads to.
pub open spec fn unsent_actions(
    devices: Map<Seq<char>, DeviceView>,
    id: Seq<char>,
    why: Seq<char>,
) -> Seq<ActionView> {
    match pending_of(devices, id) {
        Some(ticket) => seq![ActionView::AnswerPairing { ticket, answer: Err(why) }],
        None => Seq::empty(),
    }
}

/// The plugins of the device at `id`; an unknown device has none.
pub open spec fn plugins_at(m: Manager, id: Seq<char>) -> Seq<PluginInstance> {
    if m.handlers().contains_key(id) {
        m.handlers()[id]
    } else {
        Seq::empty()
    }
}

/// Whether the plugins of one device that a packet reaches have seen it, and
/// no other plugin changed.
pub open spec fn handled(
    a: Manager,
    b: Manager,
    id: Seq<char>,
    pkt: PacketView,
    env: HostEnv,
) -> bool {
    let before = plugins_at(a, id);
    let after = plugins_at(b, id);
    &&& b.handlers() == if a.handlers().contains_key(id) {
        a.handlers().insert(id, after)
    } else {
        a.handlers()
    }
    &&& after.len() == before.len()
    &&& forall|j: int| 0 <= j < before.len() ==> saw(
        #[trigger] after[j],
        before[j],
        toggles_at(a.toggles(), id),
        pkt,
        env,
    )
}

/// Whether `after` is what a plugin is after a packet that came its way.
pub open spec fn saw(
    after: PluginInstance,
    before: PluginInstance,
    toggles: Map<Seq<char>, bool>,
    pkt: PacketView,
    env: HostEnv,
) -> bool {
    if reaches(before, pkt.ptype, toggles) {
        after.described() == before.described() && after.standing() == before.next(pkt, env)
    } else {
        after == before
    }
}

/// The device table after a device introduced itself again.
pub open spec fn after_identity(
    devices: Map<Seq<char>, DeviceView>,
    id: Seq<char>,
    body: JsonView,
) -> Map<Seq<char>, DeviceView> {
    match identity::identity_of(body) {
        Some(who) if devices.contains_key(id) => devices.insert(
            id,
            DeviceView { identity: who, ..devices[id] },
        ),
        _ => devices,
    }
}

/// What receiving a file leads to.
pub open spec fn receive_actions(
    transfer_id: Seq<char>,
    device_id: Seq<char>,
    header: PacketView,
    link: Option<u64>,
) -> Seq<ActionView> {
    seq![
        ActionView::Publish(added_event(transfer_id, incoming_record(device_id, header))),
        ActionView::Receive {
            transfer_id,
            device_id,
            file_name: announced_name(header),
            size: announced_size(header),
            link,
        },
    ]
}

/// Whether a step registered an inbound transfer and asked for its bytes; a
/// share from an unknown device is dropped.
pub open spec fn receives(
    a: Manager,
    b: Manager,
    actions: Seq<ActionView>,
    device_id: Seq<char>,
    header: PacketView,
    link: Option<u64>,
) -> bool {
    &&& same_devices(a, b)
    &&& a.latest() == b.latest()
    &&& if a.devices().contains_key(device_id) {
        let id = transfer_name((a.sequence() + 1) as nat);
        &&& b.sequence() == a.sequence() + 1
        &&& b.transfers() == a.transfers().insert(id, incoming_record(device_id, header))
        &&& actions == receive_actions(id, device_id, header, link)
    } else {
        same_transfers(a, b) && actions == Seq::<ActionView>::empty()
    }
}

/// Whether a step registered an inbound transfer that failed before any byte
/// of it came.
pub open spec fn turns_away(
    a: Manager,
    b: Manager,
    actions: Seq<ActionView>,
    device_id: Seq<char>,
    header: PacketView,
    reason: Seq<char>,
) -> bool {
    let id = transfer_name((a.sequence() + 1) as nat);
    let record = new_record(device_id, "incoming"@, announced_name(header), 0, None);
    &&& same_devices(a, b)
    &&& a.latest() == b.latest()
    &&& b.sequence() == a.sequence() + 1
    &&& b.transfers() == a.transfers().insert(id, failed(record, reason))
    &&& actions == seq![
        ActionView::Publish(added_event(id, record)),
        ActionView::Publish(Event::TransferFailed { id, reason }),
    ]
}

/// What was found out about a file to send; `S` is the type of its text.
#[derive(Debug)]
pub enum SourceStat<S = String> {
    /// The file could not be looked at.
    Unreadable(S),
    /// It is no regular file.
    NotAFile,
    /// It is a regular file.
    File {
        /// Size in bytes.
        size: u64,
        /// Time of the last change in milliseconds since the Unix epoch.
        modified_ms: Option<i64>,
    },
}

impl View for SourceStat<String> {
    type V = SourceStat<Seq<char>>;

    open spec fn view(&self) -> SourceStat<Seq<char>> {
        match self {
            SourceStat::Unreadable(why) => SourceStat::Unreadable(why@),
            SourceStat::NotAFile => SourceStat::NotAFile,
            SourceStat::File { size, modified_ms } => SourceStat::File {
                size: *size,
                modified_ms: *modified_ms,
            },
        }
    }
}

/// A file that is being sent; `S` is the type of its texts.
#[derive(Debug)]
pub struct Sending<S = String> {
    /// Device that the file goes to.
    pub device_id: S,
    /// Connection to the device.
    pub link: u64,
    /// Name of the file.
    pub file_name: S,
    /// Size of the file in bytes.
    pub size: u64,
    /// Time of the file's last change.
    pub modified_ms: i64,
    /// Temporary file to remove once the transfer is over.
    pub cleanup: Option<S>,
}

impl View for Sending<String> {
    type V = Sending<Seq<char>>;

    open spec fn view(&self) -> Sending<Seq<char>> {
        Sending {
            device_id: self.device_id@,
            link: self.link,
            file_name: self.file_name@,
            size: self.size,
            modified_ms: self.modified_ms,
            cleanup: battery::optional_text(self.cleanup),
        }
    }
}

/// Why a file cannot be sent, if it cannot.
pub open spec fn send_refusal(
    devices: Map<Seq<char>, DeviceView>,
    id: Seq<char>,
    local: Seq<char>,
    stat: SourceStat<Seq<char>>,
) -> Option<Seq<char>> {
    match stat {
        SourceStat::Unreadable(why) => Some("cannot stat "@ + local + ": "@ + why),
        SourceStat::NotAFile => Some(local + " is not a regular file"@),
        SourceStat::File { .. } => if !devices.contains_key(id) {
            Some("device '"@ + id + "' is unknown"@)
        } else if devices[id].outbound is None {
            Some("device '"@ + id + "' is offline"@)
        } else {
            None
        },
    }
}

/// What is sent, where nothing stands against it.
pub open spec fn planned_send(
    devices: Map<Seq<char>, DeviceView>,
    id: Seq<char>,
    source: Materialized<Seq<char>>,
    stat: SourceStat<Seq<char>>,
) -> Sending<Seq<char>> {
    Sending {
        device_id: id,
        link: devices[id].outbound->0,
        file_name: match paths::file_name_of(source.local) {
            Some(name) => name,
            None => "file"@,
        },
        size: stat->size,
        modified_ms: match stat->modified_ms {
            Some(n) => n,
            None => 0,
        },
        cleanup: source.cleanup,
    }
}

/// The record of a file that is being sent.
pub open spec fn outgoing_record(s: Sending<Seq<char>>) -> TransferRecord<Seq<char>> {
    new_record(s.device_id, "outgoing"@, s.file_name, s.size, s.cleanup)
}

/// Whether actions remove a temporary file.
pub open spec fn removes(actions: Seq<ActionView>, path: Seq<char>) -> bool {
    actions.contains(ActionView::Discard { path })
}

/// The temporary file of a source is removed however the send ends: where it
/// is refused or its header could not be queued, where the file is empty, and
/// where the stream of a registered transfer is over, whether it was sent or
/// not.
pub proof fn law_temporary_sources_are_removed(
    s: Sending<Seq<char>>,
    path: Seq<char>,
    transfers: Map<Seq<char>, TransferRecord<Seq<char>>>,
    id: Seq<char>,
    others: Seq<ActionView>,
)
    requires
        s.cleanup == Some(path),
    ensures
        removes(discards(s.cleanup), path),
        removes(others + discards(s.cleanup), path),
        removes(
            discards(cleanup_of(transfers.insert(id, outgoing_record(s)), id)) + others,
            path,
        ),
{
    let alone = discards(s.cleanup);
    assert(alone[0] == (ActionView::Discard { path }));
    assert((others + alone)[others.len() as int] == (ActionView::Discard { path }));
    assert((alone + others)[0] == (ActionView::Discard { path }));
}

/// The body of the share header of an empty file.
pub open spec fn empty_file_json(s: Sending<Seq<char>>) -> JsonView {
    JsonView::Object(
        Map::<Seq<char>, JsonView>::empty()
            .insert("filename"@, JsonView::Str(s.file_name))
            .insert("lastModified"@, JsonView::Int(s.modified_ms as int))
            .insert("numberOfFiles"@, JsonView::Int(1))
            .insert("totalPayloadSize"@, JsonView::Int(s.size as int)),
    )
}

/// The body of the share header of a file with a payload.
pub open spec fn payload_file_json(s: Sending<Seq<char>>) -> JsonView {
    JsonView::Object(
        Map::<Seq<char>, JsonView>::empty()
            .insert("filename"@, JsonView::Str(s.file_name))
            .insert("creationTime"@, JsonView::Int(s.modified_ms as int))
            .insert("lastModified"@, JsonView::Int(s.modified_ms as int))
            .insert("numberOfFiles"@, JsonView::Int(1))
            .insert("totalPayloadSize"@, JsonView::Int(s.size as int)),
    )
}

/// The share header of a file.
pub open spec fn header_packet(s: Sending<Seq<char>>, port: Option<u16>, id: i64) -> PacketView {
    match port {
        None => packet::plain_packet(id, TYPE_SHARE@, empty_file_json(s)),
        Some(p) => PacketView {
            payload_size: Some(s.size as i64),
            payload_transfer_info: Some(
                Map::<Seq<char>, JsonView>::empty().insert("port"@, JsonView::Int(p as int)),
            ),
            ..packet::plain_packet(id, TYPE_SHARE@, payload_file_json(s))
        },
    }
}

/// A file that is announced with its size and data port is read by the other
/// side as the same name, size and port.
pub proof fn law_announced_file_is_understood(s: Sending<Seq<char>>, port: u16, id: i64)
    requires
        0 < s.size <= i64::MAX,
    ensures
        announced_name(header_packet(s, Some(port), id)) == s.file_name,
        announced_size(header_packet(s, Some(port), id)) == s.size,
        packet::announced_port(header_packet(s, Some(port), id).payload_transfer_info) == Some(
            port,
        ),
        is_empty_file_share(header_packet(s, None, id)),
        announced_name(header_packet(s, None, id)) == s.file_name,
        announced_size(header_packet(s, None, id)) == 0,
{
    reveal_strlit("filename");
    reveal_strlit("creationTime");
    reveal_strlit("lastModified");
    reveal_strlit("numberOfFiles");
    reveal_strlit("totalPayloadSize");
    assert("filename"@.len() == 8);
    assert("creationTime"@.len() == 12);
    assert("lastModified"@.len() == 12);
    assert("numberOfFiles"@.len() == 13);
    assert("totalPayloadSize"@.len() == 16);
}

/// Something that is asked of a device; `S` is the type of its texts.
#[derive(Debug, Clone, PartialEq, Eq)]
pub enum DeviceRequest<S = String> {
    /// Run the command of this name.
    RunCommand(S),
    /// Take this text.
    ShareText(S),
    /// Open this URL.
    ShareUrl(S),
    /// Report the battery.
    Battery,
    /// Send a text message; the device has to be paired.
    Sms {
        /// Recipient.
        number: S,
        /// Message.
        text: S,
    },
}

impl View for DeviceRequest<String> {
    type V = DeviceRequest<Seq<char>>;

    open spec fn view(&self) -> DeviceRequest<Seq<char>> {
        match self {
            DeviceRequest::RunCommand(name) => DeviceRequest::RunCommand(name@),
            DeviceRequest::ShareText(text) => DeviceRequest::ShareText(text@),
            DeviceRequest::ShareUrl(url) => DeviceRequest::ShareUrl(url@),
            DeviceRequest::Battery => DeviceRequest::Battery,
            DeviceRequest::Sms { number, text } => DeviceRequest::Sms {
                number: number@,
                text: text@,
            },
        }
    }
}

/// Why something cannot be asked of a device, if it cannot.
pub open spec fn request_refusal(
    devices: Map<Seq<char>, DeviceView>,
    id: Seq<char>,
    request: DeviceRequest<Seq<char>>,
) -> Option<Seq<char>> {
    if !devices.contains_key(id) {
        Some("device '"@ + id + "' is unknown"@)
    } else if devices[id].outbound is None {
        Some("device '"@ + id + "' is offline"@)
    } else if request is Sms && devices[id].pinned is None {
        Some("device '"@ + id + "' is not paired"@)
    } else {
        None
    }
}

/// The packet that asks something of a device.
pub open spec fn request_packet(request: DeviceRequest<Seq<char>>, id: i64) -> PacketView {
    match request {
        DeviceRequest::RunCommand(name) => packet::plain_packet(
            id,
            TYPE_RUNCOMMAND_REQUEST@,
            run_commands::request_json(name),
        ),
        DeviceRequest::ShareText(text) => packet::plain_packet(
            id,
            TYPE_SHARE@,
            JsonView::Object(
                Map::<Seq<char>, JsonView>::empty().insert("text"@, JsonView::Str(text)),
            ),
        ),
        DeviceRequest::ShareUrl(url) => packet::plain_packet(
            id,
            TYPE_SHARE@,
            JsonView::Object(
                Map::<Seq<char>, JsonView>::empty().insert("url"@, JsonView::Str(url)),
            ),
        ),
        DeviceRequest::Battery => packet::plain_packet(
            id,
            TYPE_BATTERY_REQUEST@,
            battery::request_json(),
        ),
        DeviceRequest::Sms { number, text } => packet::plain_packet(
            id,
            sms::TYPE_SMS_REQUEST@,
            sms::sms_json(number, text),
        ),
    }
}

/// The commands that the first plugin with a command table knows.
pub open spec fn commands_of(plugins: Seq<PluginInstance>) -> Map<Seq<char>, Seq<char>>
    decreases plugins.len(),
{
    if plugins.len() == 0 {
        Map::empty()
    } else {
        match plugins[0].standing() {
            PluginState::RunCommands { table } => table,
            _ => commands_of(plugins.drop_first()),
        }
    }
}

/// The commands of a table as a local client sees them, in the order of their
/// names.
pub open spec fn listed_commands(table: Map<Seq<char>, Seq<char>>) -> Seq<JsonView> {
    ordered::listing(table.dom()).map_values(|name: Seq<char>| command_json(name, table[name]))
}

/// A command as a local client sees it.
pub open spec fn command_json(name: Seq<char>, command: Seq<char>) -> JsonView {
    JsonView::Object(
        Map::<Seq<char>, JsonView>::empty()
            .insert("name"@, JsonView::Str(name))
            .insert("command"@, JsonView::Str(command)),
    )
}

/// Why a transfer cannot be cancelled, if it cannot.
pub open spec fn cancel_refusal(
    transfers: Map<Seq<char>, TransferRecord<Seq<char>>>,
    id: Seq<char>,
) -> Option<Seq<char>> {
    if !transfers.contains_key(id) {
        Some("unknown transfer '"@ + id + "'"@)
    } else if transfers[id].state != "active"@ {
        Some("transfer '"@ + id + "' is not active"@)
    } else {
        None
    }
}

/// A row of the transfer registry.
pub open spec fn record_json(id: Seq<char>, t: TransferRecord<Seq<char>>) -> JsonView {
    JsonView::Object(
        Map::<Seq<char>, JsonView>::empty()
            .insert("id"@, JsonView::Str(id))
            .insert("device_id"@, JsonView::Str(t.device_id))
            .insert("direction"@, JsonView::Str(t.direction))
            .insert("file_name"@, JsonView::Str(t.file_name))
            .insert("total"@, JsonView::Int(t.total as int))
            .insert("state"@, JsonView::Str(t.state))
            .insert("done"@, JsonView::Int(t.done as int))
            .insert(
                "reason"@,
                match t.reason {
                    Some(why) => JsonView::Str(why),
                    None => JsonView::Null,
                },
            ),
    )
}

/// A transfer as a local client sees it.
pub open spec fn client_record_json(id: Seq<char>, t: TransferRecord<Seq<char>>) -> JsonView {
    JsonView::Object(
        Map::<Seq<char>, JsonView>::empty()
            .insert("id"@, JsonView::Str(id))
            .insert("deviceId"@, JsonView::Str(t.device_id))
            .insert("direction"@, JsonView::Str(t.direction))
            .insert("fileName"@, JsonView::Str(t.file_name))
            .insert("fileSize"@, JsonView::Int(t.total as int))
            .insert("bytesTransferred"@, JsonView::Int(t.done as int)),
    )
}

/// A device as a local client sees it.
pub open spec fn device_json(id: Seq<char>, d: DeviceView) -> JsonView {
    JsonView::Object(
        Map::<Seq<char>, JsonView>::empty()
            .insert("device_id"@, JsonView::Str(id))
            .insert("name"@, JsonView::Str(d.identity.name))
            .insert("type"@, JsonView::Str(d.identity.device_type))
            .insert("paired"@, JsonView::Bool(d.pinned is Some))
            .insert("online"@, JsonView::Bool(d.outbound is Some))
            .insert("capabilities_incoming"@, identity::texts_json(d.identity.incoming))
            .insert("capabilities_outgoing"@, identity::texts_json(d.identity.outgoing)),
    )
}

/// Whether device `a` is listed before device `b`: by name, and under one
/// name by id.
pub open spec fn listed_before(
    devices: Map<Seq<char>, DeviceView>,
    a: Seq<char>,
    b: Seq<char>,
) -> bool {
    text::before(devices[a].identity.name, devices[b].identity.name) || (devices[a].identity.name
        == devices[b].identity.name && text::before(a, b))
}

/// Whether the devices are listed in order.
pub open spec fn ordered_by_name(ids: Seq<Seq<char>>, devices: Map<Seq<char>, DeviceView>) -> bool {
    forall|i: int, j: int|
        0 <= i < j < ids.len() ==> #[trigger] listed_before(devices, ids[i], ids[j])
}

/// Whether `ids` lists every device, in order.
pub open spec fn by_name(ids: Seq<Seq<char>>, devices: Map<Seq<char>, DeviceView>) -> bool {
    ordered_by_name(ids, devices) && ids.to_set() == devices.dom()
}

proof fn lemma_insert_to_set(s: Seq<Seq<char>>, at: int, x: Seq<char>)
    requires
        0 <= at <= s.len(),
    ensures
        s.insert(at, x).to_set() == s.to_set().insert(x),
{
    let t = s.insert(at, x);
    assert forall|q: Seq<char>| t.to_set().contains(q) == s.to_set().insert(x).contains(q) by {
        if s.contains(q) {
            let k = choose|k: int| 0 <= k < s.len() && s[k] == q;
            if k < at {
                assert(t[k] == q);
            } else {
                assert(t[k + 1] == q);
            }
        }
        if q == x {
            assert(t[at] == q);
        }
        if t.contains(q) && q != x {
            let k = choose|k: int| 0 <= k < t.len() && t[k] == q;
            if k < at {
                assert(s[k] == q);
            } else {
                assert(s[k - 1] == q);
            }
        }
    }
    assert(t.to_set() =~= s.to_set().insert(x));
}

proof fn lemma_insert_by_name(
    ids: Seq<Seq<char>>,
    devices: Map<Seq<char>, DeviceView>,
    id: Seq<char>,
    at: int,
)
    requires
        0 <= at <= ids.len(),
        ordered_by_name(ids, devices),
        forall|j: int| 0 <= j < ids.len() ==> text::before(#[trigger] ids[j], id),
        forall|j: int|
            at <= j < ids.len() ==> text::before(
                devices[id].identity.name,
                devices[#[trigger] ids[j]].identity.name,
            ),
        at > 0 ==> !text::before(
            devices[id].identity.name,
            devices[ids[at - 1]].identity.name,
        ),
    ensures
        ordered_by_name(ids.insert(at, id), devices),
{
    let t = ids.insert(at, id);
    let name = devices[id].identity.name;
    assert forall|i: int, j: int| 0 <= i < j < t.len() implies #[trigger] listed_before(
        devices,
        t[i],
        t[j],
    ) by {
        if j < at {
            assert(listed_before(devices, ids[i], ids[j]));
        } else if i >= at && i != at {
            assert(listed_before(devices, ids[i - 1], ids[j - 1]));
        } else if i == at {
            assert(text::before(name, devices[ids[j - 1]].identity.name));
        } else if j > at {
            assert(listed_before(devices, ids[i], ids[j - 1]));
        } else {
            assert(j == at && i < at);
            let last = devices[ids[at - 1]].identity.name;
            text::lemma_before_total(name, last);
            if i < at - 1 {
                assert(listed_before(devices, ids[i], ids[at - 1]));
                let mine = devices[ids[i]].identity.name;
                if text::before(mine, last) && text::before(last, name) {
                    text::lemma_before_transitive(mine, last, name);
                }
            }
            assert(text::before(ids[i], id));
        }
    }
}

proof fn lemma_advance_further(id: i64, n: nat, m: nat)
    ensures
        plugins::advance(plugins::advance(id, n), m) == plugins::advance(id, n + m),
    decreases m,
{
    if m > 0 {
        lemma_advance_further(id, n, (m - 1) as nat);
    }
}

proof fn lemma_numbered_append(a: Seq<ReplyView>, b: Seq<ReplyView>, last: i64)
    ensures
        plugins::numbered(a, last) + plugins::numbered(b, plugins::advance(last, a.len()))
            == plugins::numbered(a + b, last),
        plugins::advance(plugins::advance(last, a.len()), b.len()) == plugins::advance(
            last,
            (a + b).len(),
        ),
{
    lemma_advance_further(last, a.len(), b.len());
    assert forall|i: int| 0 <= i < b.len() implies plugins::advance(
        plugins::advance(last, a.len()),
        (i + 1) as nat,
    ) == #[trigger] plugins::advance(last, (a.len() + i + 1) as nat) by {
        lemma_advance_further(last, a.len(), (i + 1) as nat);
    }
    let x = plugins::numbered(a, last);
    let y = plugins::numbered(b, plugins::advance(last, a.len()));
    let z = plugins::numbered(a + b, last);
    assert forall|i: int| 0 <= i < z.len() implies #[trigger] (x + y)[i] == z[i] by {
        if i >= a.len() {
            let k = i - a.len();
            assert(plugins::advance(plugins::advance(last, a.len()), (k + 1) as nat)
                == plugins::advance(last, (a.len() + k + 1) as nat));
        }
    }
    assert(x + y =~= z);
}

proof fn lemma_restores_one_more(
    rows: Seq<DeviceRow<Seq<char>>>,
    n: int,
    self_id: Seq<char>,
)
    requires
        0 <= n < rows.len(),
    ensures
        forall|id: Seq<char>| #[trigger]
            restores(rows.take(n + 1), id, self_id) == (restores(rows.take(n), id, self_id) || (id
                != self_id && rows[n].device_id == id)),
{
    assert forall|id: Seq<char>| #[trigger]
        restores(rows.take(n + 1), id, self_id) == (restores(rows.take(n), id, self_id) || (id
            != self_id && rows[n].device_id == id)) by {
        if restores(rows.take(n), id, self_id) {
            let i = choose|i: int| 0 <= i < n && (#[trigger] rows.take(n)[i]).device_id == id;
            assert(rows.take(n + 1)[i].device_id == id);
        }
        if restores(rows.take(n + 1), id, self_id) {
            let i = choose|i: int|
                0 <= i < n + 1 && (#[trigger] rows.take(n + 1)[i]).device_id == id;
            if i < n {
                assert(rows.take(n)[i].device_id == id);
            }
        }
        assert(rows.take(n + 1)[n] == rows[n]);
    }
}

/// Whether a literal is in a list.
fn lists(list: &Vec<&'static str>, item: &str) -> (r: bool)
    ensures
        r == plugins::literals(list@).contains(item@),
{
    let mut i: usize = 0;
    while i < list.len()
        invariant
            i <= list.len(),
            forall|j: int| 0 <= j < i ==> plugins::literals(list@)[j] != item@,
        decreases list.len() - i,
    {
        assert(plugins::literals(list@)[i as int] == list@[i as int]@);
        if text::same(list[i], item) {
            return true;
        }
        i += 1;
    }
    false
}

/// The name of the file that a share header announces.
fn announced_file_name(header: &Packet) -> (r: String)
    ensures
        r@ == announced_name(header@),
{
    match header.body.str_member("filename") {
        Some(name) => name.to_owned(),
        None => "received-file".to_owned(),
    }
}

/// The events that a packet gives rise to beside its handling.
fn emit_side_events(packet: &Packet) -> (r: Vec<Action>)
    ensures
        actions_view(r@) == published(side_events(packet@)),
{
    let r = if text::same(packet.ty(), TYPE_NOTIFICATION) {
        publish(
            Event::NotificationReceived {
                id: notifications::str_or_empty(&packet.body, "id"),
                app: notifications::str_or_empty(&packet.body, "appName"),
                title: notifications::str_or_empty(&packet.body, "title"),
                body: notifications::str_or_empty(&packet.body, "text"),
            },
        )
    } else if text::same(packet.ty(), TYPE_CLIPBOARD) {
        match packet.body.str_member("content") {
            Some(content) => publish(Event::ClipboardUpdated { text: content.to_owned() }),
            None => nothing(),
        }
    } else {
        nothing()
    };
    assert(actions_view(r@) =~= published(side_events(packet@)));
    r
}

/// Queues packets on a connection.
fn send_all(device_id: &str, link: u64, packets: &Vec<Packet>) -> (r: Vec<Action>)
    ensures
        actions_view(r@) == sends(device_id@, Some(link), plugins::packets_view(packets@)),
{
    let ghost wanted = sends(device_id@, Some(link), plugins::packets_view(packets@));
    let mut out = nothing();
    let mut i: usize = 0;
    assert(actions_view(out@) =~= wanted.take(0));
    while i < packets.len()
        invariant
            i <= packets.len(),
            wanted == sends(device_id@, Some(link), plugins::packets_view(packets@)),
            wanted.len() == packets@.len(),
            actions_view(out@) == wanted.take(i as int),
        decreases packets.len() - i,
    {
        ask(
            &mut out,
            Action::Send { device_id: device_id.to_owned(), link, packet: packets[i].clone() },
        );
        proof {
            assert(wanted.take(i + 1) =~= wanted.take(i as int).push(wanted[i as int]));
        }
        i += 1;
    }
    assert(wanted.take(i as int) =~= wanted);
    out
}

/// The commands of a table as a local client sees them.
fn command_rows(plugin: &RunCommandsPlugin) -> (r: Vec<Json>)
    ensures
        json::list_view(r@) == listed_commands(plugin.table()),
{
    let commands = plugin.commands();
    let ghost table = plugin.table();
    let n = commands.len();
    let ghost names = commands.keys();
    let ghost wanted = names.map_values(|name: Seq<char>| command_json(name, table[name]));
    proof {
        ordered::lemma_listing(names);
        assert(table.dom() =~= names.to_set());
    }
    let mut rows: Vec<Json> = Vec::new();
    let mut i: usize = 0;
    while i < n
        invariant
            i <= n,
            n == commands.items().len(),
            names == commands.keys(),
            names.len() == n,
            table == run_commands::table_view(commands@),
            wanted == names.map_values(|name: Seq<char>| command_json(name, table[name])),
            rows@.len() == i,
            forall|j: int| 0 <= j < i ==> (#[trigger] rows@[j])@ == wanted[j],
        decreases n - i,
    {
        let (name, command) = commands.item(i);
        let row = Record::new()
            .with("name", Json::text(name.as_str()))
            .with("command", Json::text(command.as_str()))
            .done();
        assert(row@ == wanted[i as int]);
        rows.push(row);
        i += 1;
    }
    proof {
        json::lemma_list_view(rows@);
        assert(json::list_view(rows@) =~= wanted);
    }
    rows
}

/// The reason recorded for a failed outgoing transfer.
pub fn send_failure(device_id: &str, why: &Error) -> (r: String)
    ensures
        r@ == device_id@ + ": "@ + why.text(),
{
    device_id.to_owned().concat(": ").concat(why.message().as_str())
}

/// The text of a certificate mismatch.
fn mismatch_message(device_id: &str) -> (r: String)
    ensures
        r@ == mismatch_text(device_id@),
{
    "cert mismatch for ".to_owned().concat(device_id).concat(": possible spoofing")
}

/// Once a device is paired over a connection, only connections that present
/// the same certificate are let in, also after the connection closed.
pub proof fn law_pairing_pins_the_certificate(
    devices: Map<Seq<char>, DeviceView>,
    id: Seq<char>,
    print: Seq<char>,
    link: u64,
    other: Seq<char>,
)
    ensures
        ({
            let connected = after_connected(devices, id, print, link);
            let paired = after_trust(connected, id, true);
            &&& lets_in(paired, id, other) == (other == print)
            &&& lets_in(after_closed(paired, id), id, other) == (other == print)
        }),
{
}

/// Whether a device table takes a data connection whose far end presents the
/// certificate with the fingerprint `other` exactly where that is `print`:
/// otherwise a file that comes is refused, and a file of `size` bytes that
/// goes has failed before its first byte is read.
pub open spec fn is_pinned(
    devices: Map<Seq<char>, DeviceView>,
    id: Seq<char>,
    print: Seq<u8>,
    data_link: u64,
    other: Seq<u8>,
    size: u64,
) -> bool {
    let incoming = payload_refusal(devices, id, Ok((data_link, other)));
    let outgoing = stream::first_step(
        lets_in(devices, id, tls::hex_text(other)),
        size,
        0,
        false,
    );
    if other == print {
        incoming is None && outgoing == stream::send_step(size, 0, false)
    } else {
        incoming == Some(mismatch_text(id)) && outgoing == SendView::Failed(
            stream::STRANGER@,
        )
    }
}

/// A data connection of a paired device is taken only with the pinned
/// certificate: `print` is the fingerprint of the certificate that the device
/// was paired with, `other` that of the one that the far end of a data
/// connection presents. This holds of files that come and of files that go,
/// while the device is connected, after the connection closed and after a
/// restart.
pub proof fn law_data_connections_are_pinned(
    devices: Map<Seq<char>, DeviceView>,
    id: Seq<char>,
    print: Seq<u8>,
    link: u64,
    data_link: u64,
    other: Seq<u8>,
    size: u64,
    self_id: Seq<char>,
    now_ms: u64,
)
    requires
        id != self_id,
    ensures
        ({
            let connected = after_connected(devices, id, tls::hex_text(print), link);
            let paired = after_trust(connected, id, true);
            let row = trust_actions(connected, id, true, now_ms)[0]->Store_0;
            let reborn = restored(Map::empty(), seq![row], self_id);
            &&& is_pinned(paired, id, print, data_link, other, size)
            &&& is_pinned(after_closed(paired, id), id, print, data_link, other, size)
            &&& is_pinned(reborn, id, print, data_link, other, size)
        }),
{
    let connected = after_connected(devices, id, tls::hex_text(print), link);
    law_trust_survives_restarts(connected, id, self_id, now_ms, tls::hex_text(other));
    if tls::hex_text(other) == tls::hex_text(print) {
        tls::law_hex_tells_bytes_apart(other, print);
    }
}

/// The record that is stored when a device is paired restores the pin: after
/// a restart the device is let in with the pinned certificate alone.
pub proof fn law_trust_survives_restarts(
    devices: Map<Seq<char>, DeviceView>,
    id: Seq<char>,
    self_id: Seq<char>,
    now_ms: u64,
    print: Seq<char>,
)
    requires
        devices.contains_key(id),
        id != self_id,
    ensures
        trust_actions(devices, id, true, now_ms)[0] is Store,
        ({
            let row = trust_actions(devices, id, true, now_ms)[0]->Store_0;
            lets_in(restored(Map::empty(), seq![row], self_id), id, print) == lets_in(
                after_trust(devices, id, true),
                id,
                print,
            )
        }),
{
    let row = trust_actions(devices, id, true, now_ms)[0]->Store_0;
    assert(seq![row].drop_last() =~= Seq::empty());
    assert(seq![row].last() == row);
}

/// Once trust is withdrawn, any certificate is let in again, as for a device
/// that was never paired.
pub proof fn law_unpairing_lifts_the_pin(
    devices: Map<Seq<char>, DeviceView>,
    id: Seq<char>,
    print: Seq<char>,
)
    ensures
        lets_in(after_trust(devices, id, false), id, print),
{
}

/// A device that pairs with us is trusted only where we asked it to, or where
/// requests are accepted unseen and it is connected.
pub proof fn law_trust_is_asked_for(
    devices: Map<Seq<char>, DeviceView>,
    id: Seq<char>,
    wants: Option<bool>,
)
    requires
        devices.contains_key(id),
        devices[id].pinned is None,
        devices[id].pending is None,
    ensures
        after_pair_packet(devices, id, wants, false)[id].pinned is None,
{
}

/// A plugin that is switched off sees no packet and answers none: a packet
/// leaves it as it is, and leads to the replies and the battery states to
/// which it would lead if the device had no such plugin.
pub proof fn law_disabled_plugins_are_silent(
    plugins: Seq<PluginInstance>,
    toggles: Map<Seq<char>, bool>,
    pkt: PacketView,
    env: HostEnv,
    batteries: Map<Seq<char>, BatteryState>,
    i: int,
    after: PluginInstance,
)
    requires
        0 <= i < plugins.len(),
        !toggles::switched_on(plugins[i].described(), toggles),
    ensures
        saw(after, plugins[i], toggles, pkt, env) ==> after == plugins[i],
        dispatched(plugins, toggles, pkt, env) == dispatched(
            plugins.remove(i),
            toggles,
            pkt,
            env,
        ),
        mirrored(plugins, toggles, pkt, env, batteries) == mirrored(
            plugins.remove(i),
            toggles,
            pkt,
            env,
            batteries,
        ),
    decreases plugins.len(),
{
    let rest = plugins.remove(i);
    if i == plugins.len() - 1 {
        assert(rest =~= plugins.drop_last());
    } else {
        assert(plugins.drop_last()[i] == plugins[i]);
        assert(rest.drop_last() =~= plugins.drop_last().remove(i));
        assert(rest.last() == plugins.last());
        law_disabled_plugins_are_silent(
            plugins.drop_last(),
            toggles,
            pkt,
            env,
            batteries,
            i,
            after,
        );
    }
}

/// The plugins that the registry's factories build for a device are on or off
/// as the device's list of plugins shows them, once its toggles are restored.
pub proof fn law_plugins_run_as_listed(
    plugins: Seq<PluginInstance>,
    factories: Seq<RegisteredFactory>,
    stored: Seq<Option<Seq<char>>>,
    i: int,
)
    requires
        registry::descriptions(factories) == meta::roster().update(
            7,
            notifications::notifications_view(),
        ),
        built_by(plugins, factories),
        0 <= i < plugins.len(),
    ensures
        toggles::switched_on(plugins[i].described(), toggles::recalled(stored))
            == toggles::is_enabled(meta::roster()[i], toggles::toggle_at(stored, i)),
{
    assert(registry::descriptions(factories).len() == factories.len());
    assert(registry::descriptions(factories)[i] == plugins[i].described());
    toggles::lemma_runs_as_listed(stored, i, plugins[i].described());
}

/// Switching a plugin of a device on or off has that effect: `m` is what the
/// plugin says of itself. The other plugins of the device, and those of other
/// devices, are on or off as before.
pub proof fn law_switching_is_per_plugin(
    switches: Map<Seq<char>, Map<Seq<char>, bool>>,
    id: Seq<char>,
    m: MetaView,
    enabled: bool,
    other_id: Seq<char>,
    other: MetaView,
)
    ensures
        ({
            let after = after_switch(switches, id, m.name, enabled);
            &&& toggles::switched_on(m, toggles_at(after, id)) == enabled
            &&& other.name != m.name || other_id != id ==> toggles::switched_on(
                other,
                toggles_at(after, other_id),
            ) == toggles::switched_on(other, toggles_at(switches, other_id))
        }),
{
}

impl Manager {
    /// The device table.
    pub closed spec fn devices(&self) -> Map<Seq<char>, DeviceView> {
        devices_view(self.devices@)
    }

    /// The plugins of each device.
    pub closed spec fn handlers(&self) -> Map<Seq<char>, Seq<PluginInstance>> {
        plugins_view(self.devices@)
    }

    /// The transfer registry.
    pub closed spec fn transfers(&self) -> Map<Seq<char>, TransferRecord<Seq<char>>> {
        records_view(self.transfers@)
    }

    /// How many transfers were registered so far.
    pub closed spec fn sequence(&self) -> u64 {
        self.next_transfer_seq
    }

    /// The packet id given out last.
    pub closed spec fn latest(&self) -> i64 {
        self.host.ids.latest()
    }

    /// What a plugin finds around it.
    closed spec fn env(&self) -> HostEnv {
        self.host.env()
    }

    /// Latest battery state of each device.
    pub closed spec fn batteries(&self) -> Map<Seq<char>, BatteryState> {
        self.host.batteries@
    }

    /// The plugins of each device that were switched on or off.
    pub closed spec fn toggles(&self) -> Map<Seq<char>, Map<Seq<char>, bool>> {
        switches_view(self.toggles@)
    }

    /// The id of this device.
    pub closed spec fn own_id(&self) -> Seq<char> {
        self.self_device_id@
    }

    /// The factories that build a device's plugins.
    pub closed spec fn kinds(&self) -> Seq<RegisteredFactory> {
        self.factories@
    }

    /// Every registered transfer has an id that was given out.
    pub open spec fn wf(&self) -> bool {
        ids_given_out(self.transfers(), self.sequence())
    }

    /// A manager that knows no device and no transfer.
    pub fn new(self_device_id: String, factories: Vec<RegisteredFactory>) -> (r: Self)
        ensures
            r.wf(),
            r.devices() == Map::<Seq<char>, DeviceView>::empty(),
            r.handlers() == Map::<Seq<char>, Seq<PluginInstance>>::empty(),
            r.transfers() == Map::<Seq<char>, TransferRecord<Seq<char>>>::empty(),
            r.sequence() == 0,
            r.latest() == 0,
            r.batteries() == Map::<Seq<char>, BatteryState>::empty(),
            r.own_id() == self_device_id@,
            r.kinds() == factories@,
            r.toggles() == Map::<Seq<char>, Map<Seq<char>, bool>>::empty(),
    {
        let r = Manager {
            devices: TextMap::new(),
            self_device_id,
            factories,
            transfers: TextMap::new(),
            next_transfer_seq: 0,
            toggles: TextMap::new(),
            host: PluginHost::new(0),
        };
        proof {
            assert(r.devices() =~= Map::empty());
            assert(r.handlers() =~= Map::empty());
            assert(r.transfers() =~= Map::empty());
            assert(r.toggles() =~= Map::empty());
        }
        r
    }

    /// The packet id given out last.
    pub fn last_packet_id(&self) -> (r: i64)
        ensures
            r == self.latest(),
    {
        self.host.ids.last_packet_id()
    }

    /// Goes on with the packet ids that follow `latest`, which was given out
    /// elsewhere.
    pub fn continue_after(&mut self, latest: i64)
        requires
            old(self).wf(),
        ensures
            final(self).wf(),
            final(self).latest() == latest,
            same_devices(*old(self), *final(self)),
            same_setup(*old(self), *final(self)),
            same_transfers(*old(self), *final(self)),
    {
        self.host.ids = PacketIds::after(latest);
    }

    /// Switches a plugin of a device on or off.
    pub fn set_plugin_enabled(&mut self, device_id: &str, plugin: &str, enabled: bool)
        requires
            old(self).wf(),
        ensures
            final(self).wf(),
            final(self).toggles() == after_switch(
                old(self).toggles(),
                device_id@,
                plugin@,
                enabled,
            ),
            final(self).own_id() == old(self).own_id(),
            final(self).kinds() == old(self).kinds(),
            same_devices(*old(self), *final(self)),
            same_transfers(*old(self), *final(self)),
            final(self).latest() == old(self).latest(),
    {
        let mut list = match self.toggles.remove(device_id) {
            Some(list) => list,
            None => TextMap::new(),
        };
        let _ = list.insert(plugin.to_owned(), enabled);
        let _ = self.toggles.insert(device_id.to_owned(), list);
        assert(self.toggles() =~= after_switch(
            old(self).toggles(),
            device_id@,
            plugin@,
            enabled,
        ));
    }

    /// Switches the plugins of a device on or off as was stored. `stored` is
    /// what was found under the keys that [`toggles::plugin_keys`] gives.
    pub fn restore_toggles(&mut self, device_id: &str, stored: &Vec<Option<String>>)
        requires
            old(self).wf(),
        ensures
            final(self).wf(),
            final(self).toggles() == old(self).toggles().insert(
                device_id@,
                toggles::recalled(toggles::toggles_view(stored@)),
            ),
            final(self).own_id() == old(self).own_id(),
            final(self).kinds() == old(self).kinds(),
            same_devices(*old(self), *final(self)),
            same_transfers(*old(self), *final(self)),
            final(self).latest() == old(self).latest(),
    {
        let list = toggles::recall(stored);
        let ghost said = list@;
        let _ = self.toggles.insert(device_id.to_owned(), list);
        assert(self.toggles() =~= old(self).toggles().insert(device_id@, said));
    }

    /// Whether a plugin of a device is switched on.
    fn is_on(&self, device_id: &str, plugin: &PluginMeta) -> (r: bool)
        ensures
            r == toggles::switched_on(plugin@, toggles_at(self.toggles(), device_id@)),
    {
        if let Some(list) = self.toggles.get(device_id) {
            if let Some(on) = list.get(plugin.name) {
                return *on;
            }
        }
        plugin.default_enabled
    }

    fn put(&mut self, id: &str, state: DeviceState)
        ensures
            final(self).devices() == old(self).devices().insert(id@, state@),
            final(self).handlers() == old(self).handlers().insert(id@, state.handlers()),
            same_setup(*old(self), *final(self)),
            same_transfers(*old(self), *final(self)),
            final(self).latest() == old(self).latest(),
            final(self).host == old(self).host,
    {
        let ghost (v, h) = (state@, state.handlers());
        let _ = self.devices.insert(id.to_owned(), state);
        proof {
            assert(self.devices() =~= old(self).devices().insert(id@, v));
            assert(self.handlers() =~= old(self).handlers().insert(id@, h));
        }
    }

    fn take(&mut self, id: &str) -> (r: Option<DeviceState>)
        ensures
            match r {
                Some(state) => {
                    &&& old(self).devices().contains_key(id@)
                    &&& old(self).handlers().contains_key(id@)
                    &&& state@ == old(self).devices()[id@]
                    &&& state.handlers() == old(self).handlers()[id@]
                },
                None => !old(self).devices().contains_key(id@) && !old(
                    self,
                ).handlers().contains_key(id@),
            },
            final(self).devices() == old(self).devices().remove(id@),
            final(self).handlers() == old(self).handlers().remove(id@),
            same_setup(*old(self), *final(self)),
            same_transfers(*old(self), *final(self)),
            final(self).latest() == old(self).latest(),
            final(self).host == old(self).host,
    {
        let r = self.devices.remove(id);
        proof {
            assert(self.devices() =~= old(self).devices().remove(id@));
            assert(self.handlers() =~= old(self).handlers().remove(id@));
        }
        r
    }

    /// Whether the device is connected, and how.
    fn link(&self, id: &str) -> (r: Option<u64>)
        ensures
            r == link_of(self.devices(), id@),
    {
        match self.devices.get(id) {
            Some(state) => state.outbound,
            None => None,
        }
    }

    /// Registers a transfer under a fresh id; returns the id and the event to
    /// publish.
    fn register_transfer(
        &mut self,
        device_id: &str,
        direction: &str,
        file_name: &str,
        total: u64,
        cleanup: Option<String>,
    ) -> (r: (String, Event))
        requires
            old(self).wf(),
            old(self).sequence() < u64::MAX,
        ensures
            final(self).wf(),
            final(self).sequence() == old(self).sequence() + 1,
            r.0@ == transfer_name(final(self).sequence() as nat),
            !old(self).transfers().contains_key(r.0@),
            final(self).transfers() == old(self).transfers().insert(
                r.0@,
                new_record(device_id@, direction@, file_name@, total, battery::optional_text(cleanup)),
            ),
            r.1@ == added_event(r.0@, new_record(device_id@, direction@, file_name@, total, battery::optional_text(cleanup))),
            same_devices(*old(self), *final(self)),
            same_setup(*old(self), *final(self)),
            final(self).latest() == old(self).latest(),
    {
        proof {
            law_transfer_ids_are_fresh(self.transfers(), self.sequence());
        }
        self.next_transfer_seq = self.next_transfer_seq + 1;
        let id = "t".to_owned().concat(
            text::decimal_text(self.next_transfer_seq as u128).as_str(),
        );
        let record = TransferRecord {
            device_id: device_id.to_owned(),
            direction: direction.to_owned(),
            file_name: file_name.to_owned(),
            total,
            state: "active".to_owned(),
            done: 0,
            reason: None,
            cancelled: false,
            cleanup,
        };
        let ghost added = record@;
        let _ = self.transfers.insert(id.clone(), record);
        proof {
            assert(self.transfers() =~= old(self).transfers().insert(id@, added));
            assert(id@ == transfer_name(self.sequence() as nat));
            assert forall|k: Seq<char>| #[trigger] self.transfers().contains_key(k) implies exists|
                n: nat,
            |
                1 <= n <= self.sequence() && k == #[trigger] transfer_name(n) by {
                if k != id@ {
                    assert(old(self).transfers().contains_key(k));
                    let n = choose|n: nat|
                        1 <= n <= old(self).sequence() && k == #[trigger] transfer_name(n);
                    assert(1 <= n <= self.sequence() && k == transfer_name(n));
                }
            }
        }
        let event = Event::TransferAdded {
            id: id.clone(),
            device_id: device_id.to_owned(),
            direction: direction.to_owned(),
            file_name: file_name.to_owned(),
            total,
        };
        (id, event)
    }

    /// Sets the final state of a transfer; an unknown one is left alone.
    fn conclude(&mut self, transfer_id: &str, failure: Option<String>)
        requires
            old(self).wf(),
        ensures
            final(self).wf(),
            final(self).transfers() == if old(self).transfers().contains_key(transfer_id@) {
                let t = old(self).transfers()[transfer_id@];
                old(self).transfers().insert(
                    transfer_id@,
                    match failure {
                        Some(reason) => failed(t, reason@),
                        None => finished(t),
                    },
                )
            } else {
                old(self).transfers()
            },
            final(self).sequence() == old(self).sequence(),
            same_devices(*old(self), *final(self)),
            same_setup(*old(self), *final(self)),
            final(self).latest() == old(self).latest(),
    {
        let ghost why = battery::optional_text(failure);
        if let Some(record) = self.transfers.remove(transfer_id) {
            let ghost t = record@;
            let state = if failure.is_some() {
                "failed".to_owned()
            } else {
                "finished".to_owned()
            };
            let concluded = TransferRecord {
                device_id: record.device_id,
                direction: record.direction,
                file_name: record.file_name,
                total: record.total,
                state,
                done: record.done,
                reason: failure,
                cancelled: record.cancelled,
                cleanup: None,
            };
            let ghost after = concluded@;
            let _ = self.transfers.insert(transfer_id.to_owned(), concluded);
            proof {
                assert(after == match why {
                    Some(reason) => failed(t, reason),
                    None => finished(t),
                });
                assert(self.transfers() =~= old(self).transfers().insert(transfer_id@, after));
            }
        } else {
            assert(self.transfers() =~= old(self).transfers());
        }
        proof {
            assert forall|k: Seq<char>| #[trigger] self.transfers().contains_key(k) implies exists|
                n: nat,
            |
                1 <= n <= self.sequence() && k == #[trigger] transfer_name(n) by {
                assert(old(self).transfers().contains_key(k));
            }
        }
    }

    /// Restores stored records so that pinned fingerprints survive restarts.
    pub fn load_persisted(&mut self, rows: &Vec<DeviceRow>)
        requires
            old(self).wf(),
        ensures
            final(self).wf(),
            final(self).devices() == restored(
                old(self).devices(),
                rows_view(rows@),
                old(self).own_id(),
            ),
            equips_restored(*old(self), *final(self), rows_view(rows@)),
            final(self).batteries() == old(self).batteries(),
            same_setup(*old(self), *final(self)),
            same_transfers(*old(self), *final(self)),
            final(self).latest() == old(self).latest(),
    {
        let ghost views = rows_view(rows@);
        let mut i: usize = 0;
        assert(views.take(0) =~= Seq::empty());
        while i < rows.len()
            invariant
                i <= rows.len(),
                views == rows_view(rows@),
                self.devices() == restored(
                    old(self).devices(),
                    views.take(i as int),
                    old(self).own_id(),
                ),
                equips_restored(*old(self), *self, views.take(i as int)),
                self.batteries() == old(self).batteries(),
                same_setup(*old(self), *self),
                same_transfers(*old(self), *self),
                self.latest() == old(self).latest(),
            decreases rows.len() - i,
        {
            let row = &rows[i];
            proof {
                assert(views.take(i + 1).drop_last() =~= views.take(i as int));
                assert(views.take(i + 1).last() == row@);
            }
            if !text::same(row.device_id.as_str(), self.self_device_id.as_str()) {
                let who = Identity {
                    device_id: row.device_id.clone(),
                    name: row.name.clone(),
                    device_type: row.device_type.clone(),
                    protocol_version: PROTO_VERSION,
                    incoming: Vec::new(),
                    outgoing: Vec::new(),
                    tcp_source_port: 0,
                };
                assert(who@ =~= stored_identity(row@));
                let mut state = DeviceState::new(who, &self.factories);
                state.pinned_fingerprint = if row.paired {
                    Some(row.cert_fingerprint.clone())
                } else {
                    None
                };
                assert(state@ == stored_device(row@));
                self.put(row.device_id.as_str(), state);
            }
            proof {
                lemma_restores_one_more(views, i as int, self.own_id());
                assert(equips_restored(*old(self), *self, views.take(i + 1)));
            }
            i += 1;
        }
        assert(views.take(i as int) =~= views);
    }

    /// A device announced itself.
    pub fn on_announce(&mut self, a: &PeerAnnouncement) -> (r: Vec<Action>)
        requires
            old(self).wf(),
        ensures
            final(self).wf(),
            ({
                let who = a.identity@;
                let endpoint = Endpoint { ip: a.ip, port: who.tcp_source_port };
                &&& final(self).devices() == old(self).devices().insert(
                    who.device_id,
                    announced_device(old(self).devices(), who, endpoint),
                )
                &&& actions_view(r@) == announcement_actions(old(self).devices(), who, endpoint)
            }),
            equips(*old(self), *final(self), a.identity@.device_id),
            final(self).batteries() == old(self).batteries(),
            same_setup(*old(self), *final(self)),
            same_transfers(*old(self), *final(self)),
            final(self).latest() == old(self).latest(),
    {
        let endpoint = Endpoint { ip: a.ip, port: a.identity.tcp_source_port };
        let id = a.identity.device_id.as_str();
        let mut out = nothing();
        let mut state = match self.take(id) {
            Some(state) => state,
            None => {
                ask(
                    &mut out,
                    Action::Publish(
                        Event::DeviceFound { id: id.to_owned(), name: a.identity.name.clone() },
                    ),
                );
                DeviceState::new(a.identity.clone(), &self.factories)
            },
        };
        state.identity = a.identity.clone();
        state.addr = Some(endpoint);
        let offline = state.outbound.is_none();
        let ghost after = state@;
        self.put(id, state);
        proof {
            let who = a.identity@;
            assert(after == announced_device(old(self).devices(), who, endpoint));
            assert(self.devices() =~= old(self).devices().insert(id@, after));
            if old(self).handlers().contains_key(id@) {
                assert(self.handlers() =~= old(self).handlers());
            } else {
                assert(self.handlers() =~= old(self).handlers().insert(
                    id@,
                    self.handlers()[id@],
                ));
            }
        }
        if offline {
            ask(&mut out, Action::Dial { device_id: id.to_owned(), endpoint });
        }
        assert(actions_view(out@) =~= announcement_actions(
            old(self).devices(),
            a.identity@,
            endpoint,
        ));
        out
    }

    /// Whether a connection that presents the certificate with this
    /// fingerprint is let in.
    fn lets_in(&self, device_id: &str, fingerprint: &[u8]) -> (r: bool)
        ensures
            r == lets_in(self.devices(), device_id@, tls::hex_text(fingerprint@)),
    {
        if let Some(state) = self.devices.get(device_id) {
            if let Some(pinned) = &state.pinned_fingerprint {
                let print = tls::hex(fingerprint);
                return text::same(pinned.as_str(), print.as_str());
            }
        }
        true
    }

    /// Whether the payload of a file may be streamed to a device over a data
    /// connection whose far end presented the certificate with this
    /// fingerprint.
    pub fn admits_payload(&self, device_id: &str, fingerprint: &[u8]) -> (r: bool)
        requires
            self.wf(),
        ensures
            r == lets_in(self.devices(), device_id@, tls::hex_text(fingerprint@)),
    {
        self.lets_in(device_id, fingerprint)
    }

    /// A connection to a device was established; `fingerprint` is that of the
    /// certificate that the device presented. Tells whether the connection is
    /// let in; otherwise it is to be dropped before any traffic flows.
    pub fn on_connected(&mut self, device_id: &str, fingerprint: &[u8], link: u64) -> (r: (
        bool,
        Vec<Action>,
    ))
        requires
            old(self).wf(),
        ensures
            final(self).wf(),
            ({
                let print = tls::hex_text(fingerprint@);
                &&& r.0 == lets_in(old(self).devices(), device_id@, print)
                &&& final(self).devices() == if r.0 {
                    after_connected(old(self).devices(), device_id@, print, link)
                } else {
                    old(self).devices()
                }
                &&& actions_view(r.1@) == seq![
                    ActionView::Publish(connected_event(old(self).devices(), device_id@, print)),
                ]
            }),
            r.0 ==> equips(*old(self), *final(self), device_id@),
            !r.0 ==> final(self).handlers() == old(self).handlers(),
            final(self).batteries() == old(self).batteries(),
            same_setup(*old(self), *final(self)),
            same_transfers(*old(self), *final(self)),
            final(self).latest() == old(self).latest(),
    {
        if !self.lets_in(device_id, fingerprint) {
            let msg = mismatch_message(device_id);
            return (false, publish(Event::LogRecord { level: "error".to_owned(), msg }));
        }
        let print = tls::hex(fingerprint);
        let ghost shown = print@;
        let out;
        let mut state = match self.take(device_id) {
            Some(state) => {
                out =
                publish(
                    Event::DeviceStateChanged {
                        id: device_id.to_owned(),
                        state: "online".to_owned(),
                    },
                );
                state
            },
            None => {
                out =
                publish(
                    Event::DeviceFound { id: device_id.to_owned(), name: "unknown".to_owned() },
                );
                let who = Identity {
                    device_id: device_id.to_owned(),
                    name: device_id.to_owned(),
                    device_type: "unknown".to_owned(),
                    protocol_version: PROTO_VERSION,
                    incoming: Vec::new(),
                    outgoing: Vec::new(),
                    tcp_source_port: 0,
                };
                assert(who@ =~= shell_identity(device_id@));
                DeviceState::new(who, &self.factories)
            },
        };
        state.outbound = Some(link);
        state.live_fingerprint = Some(print);
        self.put(device_id, state);
        proof {
            assert(self.devices() =~= after_connected(
                old(self).devices(),
                device_id@,
                shown,
                link,
            ));
            if old(self).handlers().contains_key(device_id@) {
                assert(self.handlers() =~= old(self).handlers());
            } else {
                assert(self.handlers() =~= old(self).handlers().insert(
                    device_id@,
                    self.handlers()[device_id@],
                ));
            }
        }
        (true, out)
    }

    /// The connection to a device closed.
    pub fn on_closed(&mut self, device_id: &str) -> (r: Vec<Action>)
        requires
            old(self).wf(),
        ensures
            final(self).wf(),
            final(self).devices() == after_closed(old(self).devices(), device_id@),
            actions_view(r@) == closed_actions(old(self).devices(), device_id@),
            final(self).handlers() == old(self).handlers(),
            final(self).batteries() == old(self).batteries(),
            same_setup(*old(self), *final(self)),
            same_transfers(*old(self), *final(self)),
            final(self).latest() == old(self).latest(),
    {
        let mut out = nothing();
        if let Some(taken) = self.take(device_id) {
            let mut state = taken;
            state.outbound = None;
            state.live_fingerprint = None;
            if let Some(ticket) = state.pending_pair {
                ask(
                    &mut out,
                    Action::AnswerPairing {
                        ticket,
                        answer: Err(
                            Error::Other("connection closed during pairing".to_owned()),
                        ),
                    },
                );
            }
            state.pending_pair = None;
            self.put(device_id, state);
        }
        ask(
            &mut out,
            Action::Publish(
                Event::DeviceStateChanged {
                    id: device_id.to_owned(),
                    state: "offline".to_owned(),
                },
            ),
        );
        proof {
            assert(self.devices() =~= after_closed(old(self).devices(), device_id@));
            assert(self.handlers() =~= old(self).handlers());
            match pending_of(old(self).devices(), device_id@) {
                Some(ticket) => {
                    assert(actions_view(out@) =~= seq![
                        ActionView::AnswerPairing {
                            ticket,
                            answer: Err("connection closed during pairing"@),
                        },
                        ActionView::Publish(state_event(device_id@, "offline"@)),
                    ]);
                },
                None => {
                    assert(actions_view(out@) =~= seq![
                        ActionView::Publish(state_event(device_id@, "offline"@)),
                    ]);
                },
            }
        }
        out
    }

    /// Gives or withdraws trust.
    fn persist_trust(&mut self, device_id: &str, paired: bool, now_ms: u64) -> (r: Vec<Action>)
        ensures
            final(self).devices() == after_trust(old(self).devices(), device_id@, paired),
            actions_view(r@) == trust_actions(old(self).devices(), device_id@, paired, now_ms),
            final(self).handlers() == old(self).handlers(),
            final(self).batteries() == old(self).batteries(),
            same_setup(*old(self), *final(self)),
            same_transfers(*old(self), *final(self)),
            final(self).latest() == old(self).latest(),
            final(self).host == old(self).host,
    {
        let mut out = nothing();
        if let Some(taken) = self.take(device_id) {
            let mut state = taken;
            let fingerprint = if paired {
                match (&state.live_fingerprint, &state.pinned_fingerprint) {
                    (Some(live), _) => live.clone(),
                    (None, Some(pinned)) => pinned.clone(),
                    (None, None) => String::new(),
                }
            } else {
                String::new()
            };
            assert(!paired ==> fingerprint@ =~= Seq::<char>::empty());
            assert(paired ==> fingerprint@ =~= trusted_fingerprint(state@));
            state.pinned_fingerprint = if paired {
                Some(fingerprint.clone())
            } else {
                None
            };
            let row = DeviceRow {
                device_id: device_id.to_owned(),
                name: state.identity.name.clone(),
                device_type: state.identity.device_type.clone(),
                cert_fingerprint: fingerprint,
                paired,
                last_seen: Some((now_ms / 1000) as i64),
            };
            self.put(device_id, state);
            ask(&mut out, Action::Store(row));
            let label = if paired {
                "paired".to_owned()
            } else {
                "unpaired".to_owned()
            };
            ask(
                &mut out,
                Action::Publish(
                    Event::DeviceStateChanged { id: device_id.to_owned(), state: label },
                ),
            );
        }
        proof {
            assert(self.devices() =~= after_trust(old(self).devices(), device_id@, paired));
            assert(self.handlers() =~= old(self).handlers());
            assert(actions_view(out@) =~= trust_actions(
                old(self).devices(),
                device_id@,
                paired,
                now_ms,
            ));
        }
        out
    }

    /// Writes a pair packet to a device, where it is connected. The packet
    /// takes an id either way.
    fn send_pair(&mut self, device_id: &str, wanted: bool) -> (r: Vec<Action>)
        ensures
            actions_view(r@) == pair_message(
                old(self).devices(),
                device_id@,
                wanted,
                packet::successor(old(self).latest()),
            ),
            final(self).latest() == packet::successor(old(self).latest()),
            same_devices(*old(self), *final(self)),
            same_setup(*old(self), *final(self)),
            same_transfers(*old(self), *final(self)),
    {
        let packet = Packet::new(&mut self.host.ids, TYPE_PAIR, pair_body(wanted));
        let mut out = nothing();
        if let Some(link) = self.link(device_id) {
            ask(&mut out, Action::Send { device_id: device_id.to_owned(), link, packet });
        }
        assert(actions_view(out@) =~= pair_message(
            old(self).devices(),
            device_id@,
            wanted,
            packet::successor(old(self).latest()),
        ));
        out
    }

    /// A pair packet came from a device.
    fn on_pair_packet(
        &mut self,
        device_id: &str,
        packet: &Packet,
        auto_accept: bool,
        now_ms: u64,
    ) -> (r: Vec<Action>)
        ensures
            ({
                let wants = json::flag_at(packet@.body, "pair"@);
                &&& final(self).devices() == after_pair_packet(
                    old(self).devices(),
                    device_id@,
                    wants,
                    auto_accept,
                )
                &&& actions_view(r@) == pair_packet_actions(
                    old(self).devices(),
                    device_id@,
                    wants,
                    auto_accept,
                    now_ms,
                    packet::successor(old(self).latest()),
                )
                &&& final(self).latest() == if answers_pair_packet(
                    old(self).devices(),
                    device_id@,
                    wants,
                ) {
                    packet::successor(old(self).latest())
                } else {
                    old(self).latest()
                }
            }),
            final(self).handlers() == old(self).handlers(),
            final(self).batteries() == old(self).batteries(),
            same_setup(*old(self), *final(self)),
            same_transfers(*old(self), *final(self)),
    {
        let wants = match packet.body.bool_member("pair") {
            Some(wants) => wants,
            None => {
                return nothing();
            },
        };
        let ticket = match self.devices.get(device_id) {
            Some(state) => state.pending_pair,
            None => None,
        };
        if let Some(ticket) = ticket {
            if let Some(taken) = self.take(device_id) {
                let mut state = taken;
                state.pending_pair = None;
                self.put(device_id, state);
            }
            proof {
                assert(self.devices() =~= without_pending(old(self).devices(), device_id@));
                assert(self.handlers() =~= old(self).handlers());
            }
            let mut out = nothing();
            ask(&mut out, Action::AnswerPairing { ticket, answer: Ok(wants) });
            assert(actions_view(out@) =~= seq![
                ActionView::AnswerPairing { ticket, answer: Ok(wants) },
            ]);
            if wants {
                let more = self.persist_trust(device_id, true, now_ms);
                proof {
                    assert(trust_actions(
                        without_pending(old(self).devices(), device_id@),
                        device_id@,
                        true,
                        now_ms,
                    ) =~= trust_actions(old(self).devices(), device_id@, true, now_ms));
                }
                ask_all(&mut out, more);
            }
            return out;
        }
        if wants {
            let accepted = auto_accept && self.link(device_id).is_some();
            if accepted {
                let mut out = self.persist_trust(device_id, true, now_ms);
                let more = self.send_pair(device_id, true);
                proof {
                    assert(link_of(self.devices(), device_id@) == link_of(
                        old(self).devices(),
                        device_id@,
                    ));
                }
                ask_all(&mut out, more);
                out
            } else {
                self.send_pair(device_id, false)
            }
        } else {
            let mut out = self.persist_trust(device_id, false, now_ms);
            ask(
                &mut out,
                Action::Publish(
                    Event::DeviceStateChanged {
                        id: device_id.to_owned(),
                        state: "unpaired".to_owned(),
                    },
                ),
            );
            out
        }
    }

    /// A local caller asks for pairing with a device.
    pub fn begin_pairing(&mut self, device_id: &str, ticket: u64) -> (r: Vec<Action>)
        requires
            old(self).wf(),
        ensures
            final(self).wf(),
            final(self).devices() == after_begin(old(self).devices(), device_id@, ticket),
            actions_view(r@) == begin_actions(
                old(self).devices(),
                device_id@,
                ticket,
                packet::successor(old(self).latest()),
            ),
            final(self).latest() == if pairing_refusal(old(self).devices(), device_id@) is Some {
                old(self).latest()
            } else {
                packet::successor(old(self).latest())
            },
            final(self).handlers() == old(self).handlers(),
            final(self).batteries() == old(self).batteries(),
            same_setup(*old(self), *final(self)),
            same_transfers(*old(self), *final(self)),
    {
        let mut out = nothing();
        let refusal = match self.devices.get(device_id) {
            None => Some("unknown device '".to_owned().concat(device_id).concat("'")),
            Some(state) => {
                if state.outbound.is_none() {
                    Some("device not connected yet; wait for discovery".to_owned())
                } else if state.pinned_fingerprint.is_some() {
                    Some("already paired".to_owned())
                } else {
                    None
                }
            },
        };
        if let Some(why) = refusal {
            let ghost m = why@;
            ask(&mut out, Action::AnswerPairing { ticket, answer: Err(Error::Other(why)) });
            assert(actions_view(out@) =~= seq![
                ActionView::AnswerPairing { ticket, answer: Err(m) },
            ]);
            return out;
        }
        if let Some(taken) = self.take(device_id) {
            let mut state = taken;
            if let Some(earlier) = state.pending_pair {
                ask(
                    &mut out,
                    Action::AnswerPairing {
                        ticket: earlier,
                        answer: Err(Error::Other("pairing answer channel dropped".to_owned())),
                    },
                );
            }
            state.pending_pair = Some(ticket);
            self.put(device_id, state);
        }
        proof {
            assert(self.devices() =~= old(self).devices().insert(
                device_id@,
                DeviceView { pending: Some(ticket), ..old(self).devices()[device_id@] },
            ));
            assert(self.handlers() =~= old(self).handlers());
            assert(actions_view(out@) =~= superseded(
                pending_of(old(self).devices(), device_id@),
            ));
        }
        let more = self.send_pair(device_id, true);
        ask_all(&mut out, more);
        out
    }

    /// The pair packet of [`Manager::begin_pairing`] could not be queued.
    pub fn pairing_not_sent(&mut self, device_id: &str, why: Error) -> (r: Vec<Action>)
        requires
            old(self).wf(),
        ensures
            final(self).wf(),
            final(self).devices() == without_pending(old(self).devices(), device_id@),
            actions_view(r@) == unsent_actions(old(self).devices(), device_id@, why.text()),
            final(self).handlers() == old(self).handlers(),
            final(self).batteries() == old(self).batteries(),
            same_setup(*old(self), *final(self)),
            same_transfers(*old(self), *final(self)),
            final(self).latest() == old(self).latest(),
    {
        let mut out = nothing();
        let ghost text = why.text();
        if let Some(taken) = self.take(device_id) {
            let mut state = taken;
            if let Some(ticket) = state.pending_pair {
                ask(&mut out, Action::AnswerPairing { ticket, answer: Err(why) });
                assert(actions_view(out@) =~= seq![
                    ActionView::AnswerPairing { ticket, answer: Err(text) },
                ]);
            }
            state.pending_pair = None;
            self.put(device_id, state);
        }
        proof {
            assert(self.devices() =~= without_pending(old(self).devices(), device_id@));
            assert(self.handlers() =~= old(self).handlers());
        }
        out
    }

    /// A local caller revokes trust in a device, which is told.
    pub fn unpair(&mut self, device_id: &str, now_ms: u64) -> (r: Vec<Action>)
        requires
            old(self).wf(),
        ensures
            final(self).wf(),
            final(self).devices() == after_trust(old(self).devices(), device_id@, false),
            actions_view(r@) == unpair_actions(
                old(self).devices(),
                device_id@,
                now_ms,
                packet::successor(old(self).latest()),
            ),
            final(self).latest() == packet::successor(old(self).latest()),
            final(self).handlers() == old(self).handlers(),
            final(self).batteries() == old(self).batteries(),
            same_setup(*old(self), *final(self)),
            same_transfers(*old(self), *final(self)),
    {
        let mut out = self.send_pair(device_id, false);
        let more = self.persist_trust(device_id, false, now_ms);
        ask_all(&mut out, more);
        out
    }

    /// Hands a packet to every plugin of the device that takes its type and is
    /// switched on.
    fn dispatch_to_plugins(&mut self, device_id: &str, packet: &Packet) -> (r: Vec<Packet>)
        ensures
            plugins::packets_view(r@) == plugins::numbered(
                dispatched(
                    plugins_at(*old(self), device_id@),
                    toggles_at(old(self).toggles(), device_id@),
                    packet@,
                    old(self).env(),
                ),
                old(self).latest(),
            ),
            final(self).latest() == plugins::advance(
                old(self).latest(),
                dispatched(
                    plugins_at(*old(self), device_id@),
                    toggles_at(old(self).toggles(), device_id@),
                    packet@,
                    old(self).env(),
                ).len(),
            ),
            final(self).devices() == old(self).devices(),
            handled(*old(self), *final(self), device_id@, packet@, old(self).env()),
            final(self).batteries() == mirrored(
                plugins_at(*old(self), device_id@),
                toggles_at(old(self).toggles(), device_id@),
                packet@,
                old(self).env(),
                old(self).batteries(),
            ),
            same_setup(*old(self), *final(self)),
            same_transfers(*old(self), *final(self)),
    {
        let ghost start = self.latest();
        let ghost env = self.env();
        let ghost before = plugins_at(*self, device_id@);
        let ghost on = toggles_at(self.toggles(), device_id@);
        let mut replies: Vec<Packet> = Vec::new();
        proof {
            assert(plugins::packets_view(replies@) =~= plugins::numbered(
                dispatched(before.take(0), on, packet@, env),
                start,
            ));
        }
        if let Some(taken) = self.take(device_id) {
            let mut state = taken;
            let ghost seen = state@;
            let mut i: usize = 0;
            while i < state.plugins.len()
                invariant
                    i <= state.plugins.len(),
                    state.plugins@.len() == before.len(),
                    state@ == seen,
                    forall|j: int|
                        0 <= j < i ==> saw(
                            #[trigger] state.plugins@[j],
                            before[j],
                            on,
                            packet@,
                            env,
                        ),
                    forall|j: int| i <= j < before.len() ==> state.plugins@[j] == before[j],
                    plugins::packets_view(replies@) == plugins::numbered(
                        dispatched(before.take(i as int), on, packet@, env),
                        start,
                    ),
                    self.latest() == plugins::advance(
                        start,
                        dispatched(before.take(i as int), on, packet@, env).len(),
                    ),
                    self.env() == env,
                    on == toggles_at(self.toggles(), device_id@),
                    self.batteries() == mirrored(
                        before.take(i as int),
                        on,
                        packet@,
                        env,
                        old(self).batteries(),
                    ),
                    self.devices() == old(self).devices().remove(device_id@),
                    self.handlers() == old(self).handlers().remove(device_id@),
                    same_setup(*old(self), *self),
                    same_transfers(*old(self), *self),
                decreases state.plugins.len() - i,
            {
                let ghost done = dispatched(before.take(i as int), on, packet@, env);
                let ghost here = state.plugins@;
                proof {
                    assert(before.take(i + 1).drop_last() =~= before.take(i as int));
                    assert(before.take(i + 1).last() == before[i as int]);
                }
                let said = state.plugins[i].meta();
                if lists(&said.incoming, packet.ty()) && self.is_on(device_id, &said) {
                    let ghost more = before[i as int].replies(packet@, env);
                    let mut produced = state.plugins[i].handle(packet, &mut self.host);
                    proof {
                        lemma_numbered_append(done, more, start);
                    }
                    let ghost sent = plugins::packets_view(replies@);
                    let ghost new = plugins::packets_view(produced@);
                    replies.append(&mut produced);
                    assert(plugins::packets_view(replies@) =~= sent + new);
                }
                i += 1;
            }
            assert(before.take(i as int) =~= before);
            self.put(device_id, state);
            proof {
                assert(self.devices() =~= old(self).devices());
                assert(self.handlers() =~= old(self).handlers().insert(
                    device_id@,
                    self.handlers()[device_id@],
                ));
            }
        } else {
            proof {
                assert(before.take(0) =~= before);
                assert(self.devices() =~= old(self).devices());
                assert(self.handlers() =~= old(self).handlers());
            }
        }
        replies
    }

    /// A packet came from a device, without a data connection. `reading` is
    /// what reading the local power supplies gave.
    pub fn on_packet(
        &mut self,
        device_id: &str,
        packet: &Packet,
        auto_accept: bool,
        now_ms: u64,
        reading: Option<BatteryState>,
    ) -> (r: Vec<Action>)
        requires
            old(self).wf(),
            old(self).sequence() < u64::MAX,
        ensures
            final(self).wf(),
            same_setup(*old(self), *final(self)),
            final(self).devices() == after_packet(
                old(self).devices(),
                device_id@,
                packet@,
                auto_accept,
            ),
            ({
                let env = HostEnv { now: now_ms, battery: reading };
                let on = toggles_at(old(self).toggles(), device_id@);
                let plugins = plugins_at(*old(self), device_id@);
                if is_empty_file_share(packet@) {
                    receives(*old(self), *final(self), actions_view(r@), device_id@, packet@, None)
                } else {
                    &&& actions_view(r@) == packet_actions(
                        old(self).devices(),
                        device_id@,
                        packet@,
                        auto_accept,
                        plugins,
                        on,
                        env,
                        old(self).latest(),
                    )
                    &&& same_transfers(*old(self), *final(self))
                    &&& if packet@.ptype == TYPE_IDENTITY@ {
                        &&& final(self).handlers() == old(self).handlers()
                        &&& final(self).batteries() == old(self).batteries()
                        &&& final(self).latest() == old(self).latest()
                    } else if packet@.ptype == TYPE_PAIR@ {
                        &&& final(self).handlers() == old(self).handlers()
                        &&& final(self).batteries() == old(self).batteries()
                        &&& final(self).latest() == if answers_pair_packet(
                            old(self).devices(),
                            device_id@,
                            json::flag_at(packet@.body, "pair"@),
                        ) {
                            packet::successor(old(self).latest())
                        } else {
                            old(self).latest()
                        }
                    } else {
                        &&& handled(*old(self), *final(self), device_id@, packet@, env)
                        &&& final(self).batteries() == mirrored(
                            plugins,
                            on,
                            packet@,
                            env,
                            old(self).batteries(),
                        )
                        &&& final(self).latest() == plugins::advance(
                            old(self).latest(),
                            dispatched(plugins, on, packet@, env).len(),
                        )
                    }
                }
            }),
    {
        proof {
            lemma_share_is_neither();
        }
        self.host.now = now_ms;
        self.host.battery = reading;
        if text::same(packet.ty(), TYPE_IDENTITY) {
            if let Some(who) = Identity::from_json(&packet.body) {
                if let Some(taken) = self.take(device_id) {
                    let mut state = taken;
                    state.identity = who;
                    self.put(device_id, state);
                }
            }
            proof {
                assert(self.devices() =~= after_identity(
                    old(self).devices(),
                    device_id@,
                    packet@.body,
                ));
                assert(self.handlers() =~= old(self).handlers());
            }
            return nothing();
        }
        if text::same(packet.ty(), TYPE_PAIR) {
            return self.on_pair_packet(device_id, packet, auto_accept, now_ms);
        }
        if text::same(packet.ty(), TYPE_SHARE) && packet.body.get("filename").is_some() {
            return self.spawn_receive(device_id, packet, None);
        }
        let replies = self.dispatch_to_plugins(device_id, packet);
        let mut out = emit_side_events(packet);
        if let Some(link) = self.link(device_id) {
            let more = send_all(device_id, link, &replies);
            ask_all(&mut out, more);
        } else {
            assert(actions_view(out@) =~= actions_view(out@) + Seq::<ActionView>::empty());
        }
        out
    }

    /// Starts to receive the file that a share header announces; `link` is
    /// the data connection, and an empty file has none.
    fn spawn_receive(&mut self, device_id: &str, header: &Packet, link: Option<u64>) -> (r: Vec<
        Action,
    >)
        requires
            old(self).wf(),
            old(self).sequence() < u64::MAX,
        ensures
            final(self).wf(),
            same_setup(*old(self), *final(self)),
            receives(*old(self), *final(self), actions_view(r@), device_id@, header@, link),
    {
        if !self.devices.contains_key(device_id) {
            return nothing();
        }
        let file_name = announced_file_name(header);
        let size: u64 = match header.payload_size() {
            Some(n) => if n < 0 {
                UNKNOWN_SIZE
            } else {
                n as u64
            },
            None => 0,
        };
        let total: u64 = if size == UNKNOWN_SIZE {
            0
        } else {
            size
        };
        let (id, event) = self.register_transfer(
            device_id,
            "incoming",
            file_name.as_str(),
            total,
            None,
        );
        let mut out = publish(event);
        let ghost name = id@;
        ask(
            &mut out,
            Action::Receive {
                transfer_id: id,
                device_id: device_id.to_owned(),
                file_name,
                size,
                link,
            },
        );
        assert(actions_view(out@) =~= receive_actions(name, device_id@, header@, link));
        out
    }

    /// Registers an inbound transfer that failed before any byte of it came.
    fn turn_away(&mut self, device_id: &str, header: &Packet, reason: String) -> (r: Vec<Action>)
        requires
            old(self).wf(),
            old(self).sequence() < u64::MAX,
        ensures
            final(self).wf(),
            same_setup(*old(self), *final(self)),
            turns_away(*old(self), *final(self), actions_view(r@), device_id@, header@, reason@),
    {
        let file_name = announced_file_name(header);
        let (id, event) = self.register_transfer(
            device_id,
            "incoming",
            file_name.as_str(),
            0,
            None,
        );
        self.conclude(id.as_str(), Some(reason.clone()));
        let mut out = publish(event);
        let ghost record = new_record(device_id@, "incoming"@, announced_name(header@), 0, None);
        let ghost (name, why) = (id@, reason@);
        ask(&mut out, Action::Publish(Event::TransferFailed { id, reason }));
        proof {
            assert(self.transfers() =~= old(self).transfers().insert(name, failed(record, why)));
            assert(actions_view(out@) =~= seq![
                ActionView::Publish(added_event(name, record)),
                ActionView::Publish(Event::TransferFailed { id: name, reason: why }),
            ]);
        }
        out
    }

    /// A share header with a data port came, and the data connection was
    /// dialed: `payload` is the connection with the fingerprint of the
    /// certificate that its far end presented, or why there is none. A paired
    /// device must present the pinned certificate; where it does not, nothing
    /// is fetched and the transfer fails.
    pub fn on_share_payload(
        &mut self,
        device_id: &str,
        header: &Packet,
        payload: Result<(u64, Vec<u8>), String>,
    ) -> (r: Vec<Action>)
        requires
            old(self).wf(),
            old(self).sequence() < u64::MAX,
        ensures
            final(self).wf(),
            same_setup(*old(self), *final(self)),
            match payload_refusal(old(self).devices(), device_id@, payload_view(payload)) {
                Some(reason) => turns_away(
                    *old(self),
                    *final(self),
                    actions_view(r@),
                    device_id@,
                    header@,
                    reason,
                ),
                None => receives(
                    *old(self),
                    *final(self),
                    actions_view(r@),
                    device_id@,
                    header@,
                    Some(payload->Ok_0.0),
                ),
            },
    {
        match payload {
            Ok((link, print)) => {
                if self.lets_in(device_id, print.as_slice()) {
                    self.spawn_receive(device_id, header, Some(link))
                } else {
                    let reason = mismatch_message(device_id);
                    self.turn_away(device_id, header, reason)
                }
            },
            Err(reason) => self.turn_away(device_id, header, reason),
        }
    }

    /// Checks that a source can be sent to a device. `stat` is what was found
    /// out about its file. A source that cannot be sent is discarded.
    pub fn send_file(&self, device_id: &str, source: &Materialized, stat: &SourceStat) -> (r: (
        Result<Sending, Error>,
        Vec<Action>,
    ))
        ensures
            match (r.0, send_refusal(self.devices(), device_id@, source@.local, stat@)) {
                (Err(Error::Other(m)), Some(why)) => m@ == why && actions_view(r.1@) == discards(
                    source@.cleanup,
                ),
                (Ok(s), None) => s@ == planned_send(self.devices(), device_id@, source@, stat@)
                    && actions_view(r.1@) == Seq::<ActionView>::empty(),
                _ => false,
            },
    {
        match self.plan_send(device_id, source, stat) {
            Ok(sending) => (Ok(sending), nothing()),
            Err(e) => (Err(e), discard(&source.cleanup)),
        }
    }

    /// Checks that a source can be sent to a device.
    fn plan_send(&self, device_id: &str, source: &Materialized, stat: &SourceStat) -> (r: Result<
        Sending,
        Error,
    >)
        ensures
            match (r, send_refusal(self.devices(), device_id@, source@.local, stat@)) {
                (Err(Error::Other(m)), Some(why)) => m@ == why,
                (Ok(s), None) => s@ == planned_send(self.devices(), device_id@, source@, stat@),
                _ => false,
            },
    {
        let local = source.local.as_str();
        let (size, modified_ms) = match stat {
            SourceStat::Unreadable(why) => {
                return Err(
                    Error::Other(
                        "cannot stat ".to_owned().concat(local).concat(": ").concat(why.as_str()),
                    ),
                );
            },
            SourceStat::NotAFile => {
                return Err(Error::Other(local.to_owned().concat(" is not a regular file")));
            },
            SourceStat::File { size, modified_ms } => (
                *size,
                match modified_ms {
                    Some(n) => *n,
                    None => 0,
                },
            ),
        };
        let state = match self.devices.get(device_id) {
            Some(state) => state,
            None => {
                return Err(
                    Error::Other("device '".to_owned().concat(device_id).concat("' is unknown")),
                );
            },
        };
        let link = match state.outbound {
            Some(link) => link,
            None => {
                return Err(
                    Error::Other("device '".to_owned().concat(device_id).concat("' is offline")),
                );
            },
        };
        let file_name = match paths::file_name(local) {
            Some(name) => name,
            None => "file".to_owned(),
        };
        let cleanup = copy_path(&source.cleanup);
        Ok(Sending { device_id: device_id.to_owned(), link, file_name, size, modified_ms, cleanup })
    }

    /// The share header of a file that is being sent. `port` is the data port
    /// that was bound; an empty file is announced without one.
    pub fn share_header(&mut self, sending: &Sending, port: Option<u16>) -> (r: Packet)
        requires
            old(self).wf(),
            sending.size == 0 <==> port is None,
        ensures
            final(self).wf(),
            r@ == header_packet(sending@, port, packet::successor(old(self).latest())),
            final(self).latest() == packet::successor(old(self).latest()),
            same_devices(*old(self), *final(self)),
            same_setup(*old(self), *final(self)),
            same_transfers(*old(self), *final(self)),
    {
        let mut record = Record::new().with("filename", Json::text(sending.file_name.as_str()));
        if port.is_some() {
            record = record.with("creationTime", Json::Int(sending.modified_ms));
        }
        let body = record
            .with("lastModified", Json::Int(sending.modified_ms))
            .with("numberOfFiles", Json::Uint(1))
            .with("totalPayloadSize", Json::Uint(sending.size))
            .done();
        let packet = Packet::new(&mut self.host.ids, TYPE_SHARE, body);
        match port {
            Some(port) => packet.with_payload(sending.size as i64, port),
            None => packet,
        }
    }

    /// The share header of a file was queued, or could not be: `queued` is why.
    /// Returns the id of the transfer; the payload of a file that is not empty
    /// is then to be streamed to whoever dials the data port. The source of a
    /// transfer that is over is discarded.
    pub fn finish_send(&mut self, sending: &Sending, queued: Result<(), Error>) -> (r: (
        Result<String, Error>,
        Vec<Action>,
    ))
        requires
            old(self).wf(),
            old(self).sequence() < u64::MAX,
        ensures
            final(self).wf(),
            same_devices(*old(self), *final(self)),
            same_setup(*old(self), *final(self)),
            final(self).latest() == old(self).latest(),
            match (queued, r.0) {
                (Err(e), Err(f)) => {
                    &&& e == f
                    &&& same_transfers(*old(self), *final(self))
                    &&& actions_view(r.1@) == discards(sending@.cleanup)
                },
                (Ok(()), Ok(id)) => {
                    &&& final(self).sequence() == old(self).sequence() + 1
                    &&& id@ == transfer_name(final(self).sequence() as nat)
                    &&& final(self).transfers() == after_send(
                        old(self).transfers(),
                        id@,
                        sending@,
                    )
                    &&& actions_view(r.1@) == send_actions(id@, sending@)
                },
                _ => false,
            },
    {
        if let Err(e) = queued {
            return (Err(e), discard(&sending.cleanup));
        }
        let (id, event) = self.register_transfer(
            sending.device_id.as_str(),
            "outgoing",
            sending.file_name.as_str(),
            sending.size,
            copy_path(&sending.cleanup),
        );
        let mut out = publish(event);
        let ghost record = outgoing_record(sending@);
        if sending.size == 0 {
            self.conclude(id.as_str(), None);
            ask(&mut out, Action::Publish(Event::TransferFinished { id: id.clone() }));
            proof {
                assert(self.transfers() =~= old(self).transfers().insert(id@, finished(record)));
                assert(actions_view(out@) =~= seq![
                    ActionView::Publish(added_event(id@, record)),
                    ActionView::Publish(Event::TransferFinished { id: id@ }),
                ]);
            }
            ask_all(&mut out, discard(&sending.cleanup));
        }
        (Ok(id), out)
    }

    /// A transfer ended. The source of one that was sent is discarded.
    pub fn on_transfer_outcome(&mut self, transfer_id: &str, result: Result<(), String>) -> (r: Vec<
        Action,
    >)
        requires
            old(self).wf(),
        ensures
            final(self).wf(),
            final(self).transfers() == after_outcome(
                old(self).transfers(),
                transfer_id@,
                outcome_view(result),
            ),
            actions_view(r@) == outcome_actions(
                old(self).transfers(),
                transfer_id@,
                outcome_view(result),
            ),
            final(self).sequence() == old(self).sequence(),
            same_devices(*old(self), *final(self)),
            same_setup(*old(self), *final(self)),
            final(self).latest() == old(self).latest(),
    {
        let mut out = match self.transfers.get(transfer_id) {
            Some(record) => discard(&record.cleanup),
            None => nothing(),
        };
        match result {
            Ok(()) => {
                self.conclude(transfer_id, None);
                ask_all(
                    &mut out,
                    publish(Event::TransferFinished { id: transfer_id.to_owned() }),
                );
            },
            Err(reason) => {
                let ghost why = reason@;
                self.conclude(transfer_id, Some(reason.clone()));
                let mut more = nothing();
                ask(&mut more, Action::Sweep { transfer_id: transfer_id.to_owned() });
                ask(
                    &mut more,
                    Action::Publish(
                        Event::TransferFailed { id: transfer_id.to_owned(), reason },
                    ),
                );
                assert(actions_view(more@) =~= seq![
                    ActionView::Sweep { transfer_id: transfer_id@ },
                    ActionView::Publish(Event::TransferFailed { id: transfer_id@, reason: why }),
                ]);
                ask_all(&mut out, more);
            },
        }
        out
    }

    /// Cancels an active transfer: its stream stops at the next chunk.
    pub fn cancel_transfer(&mut self, transfer_id: &str) -> (r: Result<(), Error>)
        requires
            old(self).wf(),
        ensures
            final(self).wf(),
            match (r, cancel_refusal(old(self).transfers(), transfer_id@)) {
                (Err(Error::Other(m)), Some(why)) => m@ == why,
                (Ok(()), None) => true,
                _ => false,
            },
            final(self).transfers() == after_cancel(old(self).transfers(), transfer_id@),
            final(self).sequence() == old(self).sequence(),
            same_devices(*old(self), *final(self)),
            same_setup(*old(self), *final(self)),
            final(self).latest() == old(self).latest(),
    {
        match self.transfers.get(transfer_id) {
            None => {
                return Err(
                    Error::Other("unknown transfer '".to_owned().concat(transfer_id).concat("'")),
                );
            },
            Some(record) => {
                if !text::same(record.state.as_str(), "active") {
                    return Err(
                        Error::Other(
                            "transfer '".to_owned().concat(transfer_id).concat("' is not active"),
                        ),
                    );
                }
            },
        }
        if let Some(taken) = self.transfers.remove(transfer_id) {
            let mut record = taken;
            record.cancelled = true;
            let _ = self.transfers.insert(transfer_id.to_owned(), record);
        }
        proof {
            assert(self.transfers() =~= old(self).transfers().insert(
                transfer_id@,
                TransferRecord { cancelled: true, ..old(self).transfers()[transfer_id@] },
            ));
            assert forall|k: Seq<char>| #[trigger] self.transfers().contains_key(k) implies exists|
                n: nat,
            |
                1 <= n <= self.sequence() && k == #[trigger] transfer_name(n) by {
                assert(old(self).transfers().contains_key(k));
            }
        }
        Ok(())
    }

    /// Asks something of a device. The packet is to be queued on the device's
    /// connection.
    pub fn ask_device(&mut self, device_id: &str, request: &DeviceRequest) -> (r: Result<
        Action,
        Error,
    >)
        requires
            old(self).wf(),
        ensures
            final(self).wf(),
            match (r, request_refusal(old(self).devices(), device_id@, request@)) {
                (Err(Error::Other(m)), Some(why)) => m@ == why && final(self).latest() == old(
                    self,
                ).latest(),
                (Ok(action), None) => {
                    let id = packet::successor(old(self).latest());
                    &&& action@ == ActionView::Send {
                        device_id: device_id@,
                        link: old(self).devices()[device_id@].outbound->0,
                        packet: request_packet(request@, id),
                    }
                    &&& final(self).latest() == id
                },
                _ => false,
            },
            same_devices(*old(self), *final(self)),
            same_setup(*old(self), *final(self)),
            same_transfers(*old(self), *final(self)),
    {
        let state = match self.devices.get(device_id) {
            Some(state) => state,
            None => {
                return Err(
                    Error::Other("device '".to_owned().concat(device_id).concat("' is unknown")),
                );
            },
        };
        let link = match state.outbound {
            Some(link) => link,
            None => {
                return Err(
                    Error::Other("device '".to_owned().concat(device_id).concat("' is offline")),
                );
            },
        };
        let paired = state.pinned_fingerprint.is_some();
        let ids = &mut self.host.ids;
        let packet = match request {
            DeviceRequest::RunCommand(name) => run_commands::build_request(ids, name.as_str()),
            DeviceRequest::ShareText(text) => share::send_text(ids, text.as_str()),
            DeviceRequest::ShareUrl(url) => share::send_url(ids, url.as_str()),
            DeviceRequest::Battery => battery::build_request(ids),
            DeviceRequest::Sms { number, text } => {
                if !paired {
                    return Err(
                        Error::Other(
                            "device '".to_owned().concat(device_id).concat("' is not paired"),
                        ),
                    );
                }
                sms::send_sms(ids, number.as_str(), text.as_str())
            },
        };
        Ok(Action::Send { device_id: device_id.to_owned(), link, packet })
    }

    /// The commands that a device offers, as a local client sees them, in the
    /// order of their names; an unknown device offers none.
    pub fn command_list(&self, device_id: &str) -> (r: Vec<Json>)
        ensures
            json::list_view(r@) == listed_commands(commands_of(plugins_at(*self, device_id@))),
    {
        if let Some(state) = self.devices.get(device_id) {
            let ghost all = state.plugins@;
            let mut i: usize = 0;
            assert(all.skip(0) =~= all);
            while i < state.plugins.len()
                invariant
                    i <= state.plugins.len(),
                    all == state.plugins@,
                    all == plugins_at(*self, device_id@),
                    commands_of(all) == commands_of(all.skip(i as int)),
                decreases state.plugins.len() - i,
            {
                proof {
                    assert(all.skip(i as int)[0] == all[i as int]);
                    assert(all.skip(i as int).drop_first() =~= all.skip(i + 1));
                }
                if let PluginInstance::RunCommands(plugin) = &state.plugins[i] {
                    return command_rows(plugin);
                }
                i += 1;
            }
        }
        let none: Vec<Json> = Vec::new();
        proof {
            let table = Map::<Seq<char>, Seq<char>>::empty();
            assert(commands_of(plugins_at(*self, device_id@)) =~= table);
            let empty = Seq::<Seq<char>>::empty();
            assert(empty.to_set() =~= table.dom());
            ordered::lemma_listing(empty);
            assert(json::list_view(none@) =~= empty.map_values(
                |name: Seq<char>| command_json(name, table[name]),
            ));
        }
        none
    }

    /// Whether one more transfer can be registered: the ids are numbered, and
    /// the numbers run out.
    pub fn can_register(&self) -> (r: bool)
        ensures
            r == (self.sequence() < u64::MAX),
    {
        self.next_transfer_seq < u64::MAX
    }

    /// Whether the user wants a transfer to stop.
    pub fn is_cancelled(&self, transfer_id: &str) -> (r: bool)
        ensures
            r == wants_stop(self.transfers(), transfer_id@),
    {
        match self.transfers.get(transfer_id) {
            Some(record) => record.cancelled,
            None => false,
        }
    }

    /// The transfer registry, in the order of the transfer ids.
    pub fn transfer_snapshot(&self) -> (r: Vec<Json>)
        ensures
            json::list_view(r@) == ordered::listing(self.transfers().dom()).map_values(
                |id: Seq<char>| record_json(id, self.transfers()[id]),
            ),
    {
        let n = self.transfers.len();
        let ghost ids = self.transfers.keys();
        let ghost wanted = ids.map_values(|id: Seq<char>| record_json(id, self.transfers()[id]));
        proof {
            ordered::lemma_listing(ids);
            assert(self.transfers().dom() =~= ids.to_set());
        }
        let mut rows: Vec<Json> = Vec::new();
        let mut i: usize = 0;
        while i < n
            invariant
                i <= n,
                n == self.transfers.items().len(),
                ids == self.transfers.keys(),
                ids.len() == n,
                wanted == ids.map_values(
                    |id: Seq<char>| record_json(id, self.transfers()[id]),
                ),
                rows@.len() == i,
                forall|j: int| 0 <= j < i ==> (#[trigger] rows@[j])@ == wanted[j],
            decreases n - i,
        {
            let (id, record) = self.transfers.item(i);
            let reason = match &record.reason {
                Some(why) => Json::text(why.as_str()),
                None => Json::Null,
            };
            let row = Record::new()
                .with("id", Json::text(id.as_str()))
                .with("device_id", Json::text(record.device_id.as_str()))
                .with("direction", Json::text(record.direction.as_str()))
                .with("file_name", Json::text(record.file_name.as_str()))
                .with("total", Json::Uint(record.total))
                .with("state", Json::text(record.state.as_str()))
                .with("done", Json::Uint(record.done))
                .with("reason", reason)
                .done();
            assert(row@ == wanted[i as int]);
            rows.push(row);
            i += 1;
        }
        proof {
            json::lemma_list_view(rows@);
            assert(json::list_view(rows@) =~= wanted);
        }
        rows
    }

    /// The transfers as a local client sees them, in the order of the
    /// transfer ids.
    pub fn transfer_list(&self) -> (r: Vec<Json>)
        ensures
            json::list_view(r@) == ordered::listing(self.transfers().dom()).map_values(
                |id: Seq<char>| client_record_json(id, self.transfers()[id]),
            ),
    {
        let n = self.transfers.len();
        let ghost ids = self.transfers.keys();
        let ghost wanted = ids.map_values(
            |id: Seq<char>| client_record_json(id, self.transfers()[id]),
        );
        proof {
            ordered::lemma_listing(ids);
            assert(self.transfers().dom() =~= ids.to_set());
        }
        let mut rows: Vec<Json> = Vec::new();
        let mut i: usize = 0;
        while i < n
            invariant
                i <= n,
                n == self.transfers.items().len(),
                ids == self.transfers.keys(),
                ids.len() == n,
                wanted == ids.map_values(
                    |id: Seq<char>| client_record_json(id, self.transfers()[id]),
                ),
                rows@.len() == i,
                forall|j: int| 0 <= j < i ==> (#[trigger] rows@[j])@ == wanted[j],
            decreases n - i,
        {
            let (id, record) = self.transfers.item(i);
            let row = Record::new()
                .with("id", Json::text(id.as_str()))
                .with("deviceId", Json::text(record.device_id.as_str()))
                .with("direction", Json::text(record.direction.as_str()))
                .with("fileName", Json::text(record.file_name.as_str()))
                .with("fileSize", Json::Uint(record.total))
                .with("bytesTransferred", Json::Uint(record.done))
                .done();
            assert(row@ == wanted[i as int]);
            rows.push(row);
            i += 1;
        }
        proof {
            json::lemma_list_view(rows@);
            assert(json::list_view(rows@) =~= wanted);
        }
        rows
    }

    /// The ids of the devices, ordered by name and, under one name, by id.
    fn ids_by_name(&self) -> (r: Vec<String>)
        ensures
            by_name(text::texts(r@), self.devices()),
    {
        let n = self.devices.len();
        let ghost keys = self.devices.keys();
        assert(self.devices().dom() =~= keys.to_set());
        let mut ids: Vec<String> = Vec::new();
        let mut i: usize = 0;
        proof {
            assert(text::texts(ids@).to_set() =~= keys.take(0).to_set());
        }
        while i < n
            invariant
                i <= n,
                n == self.devices.items().len(),
                keys == self.devices.keys(),
                keys.len() == n,
                ordered::increasing(keys),
                self.devices().dom() == keys.to_set(),
                ids@.len() == i,
                ordered_by_name(text::texts(ids@), self.devices()),
                text::texts(ids@).to_set() == keys.take(i as int).to_set(),
                forall|j: int|
                    0 <= j < i ==> self.devices().contains_key(#[trigger] text::texts(ids@)[j]),
            decreases n - i,
        {
            let (id, state) = self.devices.item(i);
            let ghost views = text::texts(ids@);
            proof {
                assert(keys[i as int] == id@);
                assert(self.devices().contains_key(id@));
                assert forall|j: int| 0 <= j < i implies text::before(
                    #[trigger] views[j],
                    id@,
                ) by {
                    assert(views.to_set().contains(views[j]));
                    assert(keys.take(i as int).contains(views[j]));
                    let k = choose|k: int| 0 <= k < i && #[trigger] keys.take(i as int)[k]
                        == views[j];
                    assert(keys[k] == views[j]);
                }
            }
            let mut at: usize = ids.len();
            while at > 0 && self.comes_after(ids[at - 1].as_str(), state.identity.name.as_str())
                invariant
                    at <= ids@.len(),
                    ids@.len() == i,
                    views == text::texts(ids@),
                    self.devices().contains_key(id@),
                    self.devices()[id@].identity.name == state.identity.name@,
                    forall|j: int|
                        0 <= j < i ==> self.devices().contains_key(#[trigger] views[j]),
                    forall|j: int|
                        at <= j < i ==> text::before(
                            state.identity.name@,
                            self.devices()[#[trigger] views[j]].identity.name,
                        ),
                ensures
                    at <= ids@.len(),
                    forall|j: int|
                        at <= j < i ==> text::before(
                            state.identity.name@,
                            self.devices()[#[trigger] views[j]].identity.name,
                        ),
                    at > 0 ==> !text::before(
                        state.identity.name@,
                        self.devices()[views[at - 1]].identity.name,
                    ),
                decreases at,
            {
                assert(views[at - 1] == ids@[at - 1]@);
                at -= 1;
            }
            proof {
                if at > 0 {
                    assert(views[at - 1] == ids@[at - 1]@);
                }
            }
            ids.insert(at, id.clone());
            proof {
                let after = text::texts(ids@);
                assert(after =~= views.insert(at as int, id@));
                lemma_insert_by_name(views, self.devices(), id@, at as int);
                lemma_insert_to_set(views, at as int, id@);
                assert(keys.take(i + 1) =~= keys.take(i as int).push(id@));
                keys.take(i as int).lemma_push_to_set_commute(id@);
            }
            i += 1;
        }
        assert(keys.take(i as int) =~= keys);
        ids
    }

    /// Whether the name of the device at `id` comes after `name`.
    fn comes_after(&self, id: &str, name: &str) -> (r: bool)
        requires
            self.devices().contains_key(id@),
        ensures
            r == text::before(name@, self.devices()[id@].identity.name),
    {
        match self.devices.get(id) {
            Some(state) => text::is_before(name, state.identity.name.as_str()),
            None => false,
        }
    }

    /// The device table as a local client sees it, ordered by name.
    pub fn snapshot(&self) -> (r: Vec<Json>)
        ensures
            exists|ids: Seq<Seq<char>>| #[trigger]
                by_name(ids, self.devices()) && json::list_view(r@) == ids.map_values(
                    |id: Seq<char>| device_json(id, self.devices()[id]),
                ),
    {
        let ids = self.ids_by_name();
        let ghost views = text::texts(ids@);
        let ghost wanted = views.map_values(|id: Seq<char>| device_json(id, self.devices()[id]));
        let mut rows: Vec<Json> = Vec::new();
        let mut i: usize = 0;
        while i < ids.len()
            invariant
                i <= ids.len(),
                views == text::texts(ids@),
                by_name(views, self.devices()),
                wanted == views.map_values(
                    |id: Seq<char>| device_json(id, self.devices()[id]),
                ),
                rows@.len() == i,
                forall|j: int| 0 <= j < i ==> (#[trigger] rows@[j])@ == wanted[j],
            decreases ids.len() - i,
        {
            let id = ids[i].as_str();
            proof {
                assert(views[i as int] == id@);
                assert(views.to_set().contains(id@));
            }
            match self.devices.get(id) {
                Some(state) => {
                    let row = Record::new()
                        .with("device_id", Json::text(id))
                        .with("name", Json::text(state.identity.name.as_str()))
                        .with("type", Json::text(state.identity.device_type.as_str()))
                        .with("paired", Json::Bool(state.pinned_fingerprint.is_some()))
                        .with("online", Json::Bool(state.outbound.is_some()))
                        .with("capabilities_incoming", Json::texts(&state.identity.incoming))
                        .with("capabilities_outgoing", Json::texts(&state.identity.outgoing))
                        .done();
                    assert(row@ == wanted[i as int]);
                    rows.push(row);
                },
                None => {
                    assert(false);
                },
            }
            i += 1;
        }
        proof {
            json::lemma_list_view(rows@);
            assert(json::list_view(rows@) =~= wanted);
        }
        rows
    }
}

} // verus!
