//! The state of the front-end and its reducer.
//!
//! The reducer is total: every [`Message`] maps to a plain state change and
//! the effects that the caller is to perform.
use super::bridge::BridgeIn;
use super::model;
use super::model::{
    ConnState, DeviceCard, NotifRow, PluginRow, PluginToggles, Tab, TransferRow,
};
use crate::ipc::{ServerEvent, IPC_VERSION};
use crate::plugins::battery;
use crate::text;
use vstd::prelude::*;

verus! {

/// Maximum number of retained log lines.
pub const LOG_CAP: usize = 300;

/// Maximum number of retained notifications (oldest evicted first).
pub const NOTIF_CAP: usize = 100;

/// Longest clipboard text that a log line shows in full.
pub const CLIPBOARD_LINE: usize = 80;

/// All inputs the front-end reacts to.
#[derive(Debug)]
pub enum Message {
    /// Explicit no-op.
    Nothing,
    /// Sidebar tab switched.
    TabSelected(Tab),
    /// Error banner dismissed.
    BannerClosed,
    /// Connection status changed.
    IpcStatus(ConnState),
    /// The driver of the connection takes commands.
    BridgeReady,
    /// The daemon socket was lost; the text explains why.
    ConnectionLost(String),
    /// A data load failed; the text explains why.
    LoadFailed(String),
    /// Full device list replaced.
    DevicesLoaded(Vec<DeviceCard>),
    /// Plugin rows replaced (for the selected device).
    PluginsLoaded(Vec<PluginRow>),
    /// Notification snapshot replaced.
    NotificationsLoaded(Vec<NotifRow>),
    /// Acknowledgement of a pair request.
    Paired(Result<(), String>),
    /// Acknowledgement of an unpair request.
    Unpaired(Result<(), String>),
    /// Acknowledgement of a send-file request.
    FileQueued(Result<(), String>),
    /// Acknowledgement of a notification dismissal.
    Dismissed(Result<(), String>),
    /// Acknowledgement of a plugin enable/disable request.
    PluginSet(Result<(), String>),
    /// Acknowledgement of a clipboard write.
    ClipboardSet(Result<(), String>),
    /// A server-pushed event.
    Event(ServerEvent),
    /// A device card was clicked.
    DeviceSelected(usize),
    /// Pair button pressed for a device id.
    PairPressed(String),
    /// Unpair button pressed for a device id.
    UnpairPressed(String),
    /// Plugin checkbox toggled (name, desired state).
    TogglePlugin(String, bool),
    /// Settings gear pressed.
    SettingsPressed,
    /// A device-scoped checkbox of the settings panel flipped
    /// (`"device_id:plugin_name"` key, desired state).
    ToggleSavedPlugin(String, bool),
    /// Queue-file button pressed.
    QueueFilePressed,
    /// File-path input changed.
    PathChanged(String),
    /// Clipboard input changed.
    ClipboardChanged(String),
    /// Clipboard send button or input submit pressed.
    SendPressed,
    /// Manual device-list refresh requested.
    RefreshPressed,
    /// Dismiss button pressed for a notification id.
    DismissPressed(String),
}

/// What a [`Message`] says.
pub enum MessageView {
    /// Explicit no-op.
    Nothing,
    /// Sidebar tab switched.
    TabSelected(Tab),
    /// Error banner dismissed.
    BannerClosed,
    /// Connection status changed.
    IpcStatus(ConnState),
    /// The driver of the connection takes commands.
    BridgeReady,
    /// The daemon socket was lost; the text explains why.
    ConnectionLost(Seq<char>),
    /// A data load failed; the text explains why.
    LoadFailed(Seq<char>),
    /// Full device list replaced.
    DevicesLoaded(Seq<DeviceCard<Seq<char>>>),
    /// Plugin rows replaced (for the selected device).
    PluginsLoaded(Seq<PluginRow<Seq<char>>>),
    /// Notification snapshot replaced.
    NotificationsLoaded(Seq<NotifRow<Seq<char>>>),
    /// Acknowledgement of a pair request.
    Paired(Result<(), Seq<char>>),
    /// Acknowledgement of an unpair request.
    Unpaired(Result<(), Seq<char>>),
    /// Acknowledgement of a send-file request.
    FileQueued(Result<(), Seq<char>>),
    /// Acknowledgement of a notification dismissal.
    Dismissed(Result<(), Seq<char>>),
    /// Acknowledgement of a plugin enable/disable request.
    PluginSet(Result<(), Seq<char>>),
    /// Acknowledgement of a clipboard write.
    ClipboardSet(Result<(), Seq<char>>),
    /// A server-pushed event.
    Event(ServerEvent<Seq<char>>),
    /// A device card was clicked.
    DeviceSelected(usize),
    /// Pair button pressed for a device id.
    PairPressed(Seq<char>),
    /// Unpair button pressed for a device id.
    UnpairPressed(Seq<char>),
    /// Plugin checkbox toggled (name, desired state).
    TogglePlugin(Seq<char>, bool),
    /// Settings gear pressed.
    SettingsPressed,
    /// A device-scoped checkbox of the settings panel flipped
    /// (`"device_id:plugin_name"` key, desired state).
    ToggleSavedPlugin(Seq<char>, bool),
    /// Queue-file button pressed.
    QueueFilePressed,
    /// File-path input changed.
    PathChanged(Seq<char>),
    /// Clipboard input changed.
    ClipboardChanged(Seq<char>),
    /// Clipboard send button or input submit pressed.
    SendPressed,
    /// Manual device-list refresh requested.
    RefreshPressed,
    /// Dismiss button pressed for a notification id.
    DismissPressed(Seq<char>),
}

/// What the outcome of a request says.
pub open spec fn outcome_view(r: Result<(), String>) -> Result<(), Seq<char>> {
    match r {
        Ok(()) => Ok(()),
        Err(e) => Err(e@),
    }
}

impl View for Message {
    type V = MessageView;

    open spec fn view(&self) -> MessageView {
        match self {
            Message::Nothing => MessageView::Nothing,
            Message::TabSelected(x) => MessageView::TabSelected(*x),
            Message::BannerClosed => MessageView::BannerClosed,
            Message::IpcStatus(x) => MessageView::IpcStatus(*x),
            Message::BridgeReady => MessageView::BridgeReady,
            Message::ConnectionLost(x) => MessageView::ConnectionLost(x@),
            Message::LoadFailed(x) => MessageView::LoadFailed(x@),
            Message::DevicesLoaded(x) => MessageView::DevicesLoaded(model::cards_view(x@)),
            Message::PluginsLoaded(x) => MessageView::PluginsLoaded(model::plugins_view(x@)),
            Message::NotificationsLoaded(x) => MessageView::NotificationsLoaded(model::notifs_view(x@)),
            Message::Paired(x) => MessageView::Paired(outcome_view(*x)),
            Message::Unpaired(x) => MessageView::Unpaired(outcome_view(*x)),
            Message::FileQueued(x) => MessageView::FileQueued(outcome_view(*x)),
            Message::Dismissed(x) => MessageView::Dismissed(outcome_view(*x)),
            Message::PluginSet(x) => MessageView::PluginSet(outcome_view(*x)),
            Message::ClipboardSet(x) => MessageView::ClipboardSet(outcome_view(*x)),
            Message::Event(x) => MessageView::Event(x@),
            Message::DeviceSelected(x) => MessageView::DeviceSelected(*x),
            Message::PairPressed(x) => MessageView::PairPressed(x@),
            Message::UnpairPressed(x) => MessageView::UnpairPressed(x@),
            Message::TogglePlugin(x, b) => MessageView::TogglePlugin(x@, *b),
            Message::SettingsPressed => MessageView::SettingsPressed,
            Message::ToggleSavedPlugin(x, b) => MessageView::ToggleSavedPlugin(x@, *b),
            Message::QueueFilePressed => MessageView::QueueFilePressed,
            Message::PathChanged(x) => MessageView::PathChanged(x@),
            Message::ClipboardChanged(x) => MessageView::ClipboardChanged(x@),
            Message::SendPressed => MessageView::SendPressed,
            Message::RefreshPressed => MessageView::RefreshPressed,
            Message::DismissPressed(x) => MessageView::DismissPressed(x@),
        }
    }
}

/// What a list of messages says.
pub open spec fn messages_view(v: Seq<Message>) -> Seq<MessageView> {
    v.map_values(|m: Message| m@)
}

/// What the reducer asks of its caller; `S` is the type of the texts.
#[derive(Debug, PartialEq, Eq)]
pub enum Effect<S = String> {
    /// Send a command to the daemon.
    Send(BridgeIn<S>),
    /// Write the plugin toggles to disk.
    SaveToggles,
    /// A command that cannot be sent, since there is no connection: to be
    /// reported by [`HandfastApp::not_delivered`].
    Undelivered(BridgeIn<S>),
}

impl View for Effect<String> {
    type V = Effect<Seq<char>>;

    open spec fn view(&self) -> Effect<Seq<char>> {
        match self {
            Effect::Send(command) => Effect::Send(command@),
            Effect::SaveToggles => Effect::SaveToggles,
            Effect::Undelivered(command) => Effect::Undelivered(command@),
        }
    }
}

/// What a list of effects says.
pub open spec fn effects_view(v: Seq<Effect>) -> Seq<Effect<Seq<char>>> {
    v.map_values(|e: Effect| e@)
}

/// Root application state.
#[derive(Debug)]
pub struct HandfastApp {
    /// Current connection status.
    pub conn: ConnState,
    /// Active sidebar tab.
    pub tab: Tab,
    /// Known devices, in discovery order.
    pub devices: Vec<DeviceCard>,
    /// Index of the selected device.
    pub selected: Option<usize>,
    /// Stable identity of the selected device.
    pub selected_id: Option<String>,
    /// Plugins of the selected device.
    pub plugins: Vec<PluginRow>,
    /// Ongoing transfers.
    pub transfers: Vec<TransferRow>,
    /// Mirrored notifications, newest first.
    pub notifications: Vec<NotifRow>,
    /// Bounded log lines, oldest first.
    pub logs: Vec<String>,
    /// Top banner text when something needs attention.
    pub banner: Option<String>,
    /// Whether the driver of the connection takes commands.
    pub bridge: bool,
    /// Device awaiting a pair acknowledgement.
    pub pair_target: Option<String>,
    /// Device awaiting an unpair acknowledgement.
    pub unpair_target: Option<String>,
    /// Draft clipboard text to send.
    pub clipboard_draft: String,
    /// Last clipboard-send outcome line.
    pub clipboard_status: Option<String>,
    /// Draft absolute file path to queue for transfer.
    pub file_path_draft: String,
    /// Wire protocol version that the daemon reported.
    pub daemon_version: Option<String>,
    /// Whether the settings panel is expanded.
    pub settings_open: bool,
    /// Stored plugin toggles by `"device_id:plugin_name"`.
    pub plugin_toggles: PluginToggles,
}

/// What a [`HandfastApp`] says.
#[verifier::ext_equal]
pub struct AppView {
    /// Current connection status.
    pub conn: ConnState,
    /// Active sidebar tab.
    pub tab: Tab,
    /// Known devices, in discovery order.
    pub devices: Seq<DeviceCard<Seq<char>>>,
    /// Index of the selected device.
    pub selected: Option<int>,
    /// Stable identity of the selected device.
    pub selected_id: Option<Seq<char>>,
    /// Plugins of the selected device.
    pub plugins: Seq<PluginRow<Seq<char>>>,
    /// Ongoing transfers.
    pub transfers: Seq<TransferRow<Seq<char>>>,
    /// Mirrored notifications, newest first.
    pub notifications: Seq<NotifRow<Seq<char>>>,
    /// Bounded log lines, oldest first.
    pub logs: Seq<Seq<char>>,
    /// Top banner text when something needs attention.
    pub banner: Option<Seq<char>>,
    /// Whether the driver of the connection takes commands.
    pub bridge: bool,
    /// Device awaiting a pair acknowledgement.
    pub pair_target: Option<Seq<char>>,
    /// Device awaiting an unpair acknowledgement.
    pub unpair_target: Option<Seq<char>>,
    /// Draft clipboard text to send.
    pub clipboard_draft: Seq<char>,
    /// Last clipboard-send outcome line.
    pub clipboard_status: Option<Seq<char>>,
    /// Draft absolute file path to queue for transfer.
    pub file_path_draft: Seq<char>,
    /// Wire protocol version that the daemon reported.
    pub daemon_version: Option<Seq<char>>,
    /// Whether the settings panel is expanded.
    pub settings_open: bool,
    /// Stored plugin toggles by `"device_id:plugin_name"`.
    pub plugin_toggles: Map<Seq<char>, bool>,
}

/// What an optional index says.
pub open spec fn index_view(i: Option<usize>) -> Option<int> {
    match i {
        Some(n) => Some(n as int),
        None => None,
    }
}

impl View for HandfastApp {
    type V = AppView;

    open spec fn view(&self) -> AppView {
        AppView {
            conn: self.conn,
            tab: self.tab,
            devices: model::cards_view(self.devices@),
            selected: index_view(self.selected),
            selected_id: battery::optional_text(self.selected_id),
            plugins: model::plugins_view(self.plugins@),
            transfers: model::transfers_view(self.transfers@),
            notifications: model::notifs_view(self.notifications@),
            logs: text::texts(self.logs@),
            banner: battery::optional_text(self.banner),
            bridge: self.bridge,
            pair_target: battery::optional_text(self.pair_target),
            unpair_target: battery::optional_text(self.unpair_target),
            clipboard_draft: self.clipboard_draft@,
            clipboard_status: battery::optional_text(self.clipboard_status),
            file_path_draft: self.file_path_draft@,
            daemon_version: battery::optional_text(self.daemon_version),
            settings_open: self.settings_open,
            plugin_toggles: self.plugin_toggles@,
        }
    }
}

/// The state with a line behind its log; a full log loses its oldest line.
#[verifier::opaque]
pub open spec fn logged(v: AppView, line: Seq<char>) -> AppView {
    AppView {
        logs: if v.logs.len() >= LOG_CAP {
            v.logs.drop_first().push(line)
        } else {
            v.logs.push(line)
        },
        ..v
    }
}

/// The state with an error shown: a banner and a log line.
#[verifier::opaque]
pub open spec fn bannered(v: AppView, text: Seq<char>) -> AppView {
    AppView { banner: Some(text), ..logged(v, "[error] "@ + text) }
}

/// The state after a command could not be delivered. A dismissal is dropped
/// in silence.
pub open spec fn undelivered(v: AppView, command: BridgeIn<Seq<char>>) -> AppView {
    match command {
        BridgeIn::ClipboardSet(_) => AppView { clipboard_status: Some("not connected"@), ..v },
        BridgeIn::DismissNotification(_) => v,
        _ => bannered(v, "not connected"@),
    }
}

/// The state after the attempt to send a command, and the effect.
#[verifier::opaque]
pub open spec fn dispatched(v: AppView, command: BridgeIn<Seq<char>>) -> (
    AppView,
    Seq<Effect<Seq<char>>>,
) {
    if v.bridge {
        (v, seq![Effect::Send(command)])
    } else {
        (undelivered(v, command), Seq::empty())
    }
}

/// The cards with `change` applied to the one with the given id.
pub open spec fn changed_card(
    rows: Seq<DeviceCard<Seq<char>>>,
    id: Seq<char>,
    change: spec_fn(DeviceCard<Seq<char>>) -> DeviceCard<Seq<char>>,
) -> Seq<DeviceCard<Seq<char>>> {
    match model::card_at(rows, id, 0) {
        Some(i) => rows.update(i, change(rows[i])),
        None => rows,
    }
}

/// The card with another state label.
pub open spec fn relabelled(state: Seq<char>) -> spec_fn(DeviceCard<Seq<char>>) -> DeviceCard<
    Seq<char>,
> {
    |c: DeviceCard<Seq<char>>| DeviceCard { state, ..c }
}

/// The card after a pairing was made or revoked.
pub open spec fn settled(unpair: bool) -> spec_fn(DeviceCard<Seq<char>>) -> DeviceCard<Seq<char>> {
    |c: DeviceCard<Seq<char>>|
        DeviceCard {
            paired: !unpair,
            state: if unpair {
                "found"@
            } else {
                "paired"@
            },
            ..c
        }
}

/// The card with the label of a request in flight taken back.
pub open spec fn reverted(unpair: bool) -> spec_fn(DeviceCard<Seq<char>>) -> DeviceCard<Seq<char>> {
    |c: DeviceCard<Seq<char>>|
        if unpair && c.state == "unpairing"@ {
            DeviceCard { state: "paired"@, ..c }
        } else if !unpair && c.state == "pairing"@ {
            DeviceCard { state: "found"@, ..c }
        } else {
            c
        }
}

/// Id of the selected device, if still present.
pub open spec fn selection(v: AppView) -> Option<Seq<char>> {
    match v.selected {
        Some(i) if 0 <= i < v.devices.len() => Some(v.devices[i].id),
        _ => None,
    }
}

/// The state after a pair or unpair acknowledgement.
#[verifier::opaque]
pub open spec fn pairing_finished(v: AppView, result: Result<(), Seq<char>>, unpair: bool) -> AppView {
    let target = if unpair {
        v.unpair_target
    } else {
        v.pair_target
    };
    let v1 = if unpair {
        AppView { unpair_target: None, ..v }
    } else {
        AppView { pair_target: None, ..v }
    };
    match (result, target) {
        (Ok(_), Some(id)) => logged(
            AppView { devices: changed_card(v1.devices, id, settled(unpair)), ..v1 },
            if unpair {
                "unpaired "@ + id
            } else {
                "paired with "@ + id
            },
        ),
        (Ok(_), None) => v1,
        (Err(e), _) => bannered(
            match target {
                Some(id) => AppView {
                    devices: changed_card(v1.devices, id, reverted(unpair)),
                    ..v1
                },
                None => v1,
            },
            if unpair {
                "unpairing failed: "@ + e
            } else {
                "pairing failed: "@ + e
            },
        ),
    }
}

/// The state after a plugin toggle was stored.
pub open spec fn recorded(v: AppView, device_id: Seq<char>, plugin: Seq<char>, enabled: bool) -> AppView {
    AppView {
        plugin_toggles: v.plugin_toggles.insert(model::key_of(device_id, plugin), enabled),
        ..v
    }
}

/// The state after a plugin toggle was recorded, and the effects: it is saved
/// and then sent, or reported as undelivered.
#[verifier::opaque]
pub open spec fn toggled(v: AppView, device_id: Seq<char>, plugin: Seq<char>, enabled: bool) -> (
    AppView,
    Seq<Effect<Seq<char>>>,
) {
    let command = BridgeIn::SetPlugin { device_id, plugin, enabled };
    (
        recorded(v, device_id, plugin, enabled),
        seq![
            Effect::SaveToggles,
            if v.bridge {
                Effect::Send(command)
            } else {
                Effect::Undelivered(command)
            },
        ],
    )
}

/// The position of the first plugin row with the given name, from `from` on.
pub open spec fn plugin_at(rows: Seq<PluginRow<Seq<char>>>, name: Seq<char>, from: int) -> Option<int>
    decreases rows.len() - from,
{
    if from < 0 || from >= rows.len() {
        None
    } else if rows[from].name == name {
        Some(from)
    } else {
        plugin_at(rows, name, from + 1)
    }
}

/// The rows with the named plugin switched.
pub open spec fn flipped(rows: Seq<PluginRow<Seq<char>>>, name: Seq<char>, enabled: bool) -> Seq<
    PluginRow<Seq<char>>,
> {
    match plugin_at(rows, name, 0) {
        Some(i) => rows.update(i, PluginRow { enabled, ..rows[i] }),
        None => rows,
    }
}

/// A text cut to a length, with an ellipsis for what is left out.
pub open spec fn clamped(s: Seq<char>, max_chars: int) -> Seq<char> {
    if s.len() <= max_chars {
        s
    } else if max_chars < 3 {
        "..."@
    } else {
        s.take(max_chars - 3) + "..."@
    }
}

/// The state after a greeting of the daemon.
pub open spec fn greeted(v: AppView, version: u32, name: Seq<char>, pid: u32) -> AppView {
    let offered = text::decimal(version as nat);
    let v1 = logged(
        AppView { daemon_version: Some(offered), ..v },
        "hello: "@ + name + " pid "@ + text::decimal(pid as nat) + " (ipc v"@ + offered + ")"@,
    );
    if version != IPC_VERSION {
        logged(
            v1,
            "[warn] protocol mismatch: gui speaks v"@ + text::decimal(IPC_VERSION as nat)
                + ", daemon offers v"@ + offered,
        )
    } else {
        v1
    }
}

/// The state after a device announced itself; what is known of it is kept but
/// for its name.
pub open spec fn device_found(v: AppView, id: Seq<char>, name: Seq<char>) -> AppView {
    let card = match model::card_at(v.devices, id, 0) {
        Some(i) => DeviceCard { name, ..v.devices[i] },
        None => model::found_card(id, name),
    };
    AppView { devices: model::card_upserted(v.devices, card), ..v }
}

/// The state after a device disappeared.
pub open spec fn device_lost(v: AppView, id: Seq<char>) -> AppView {
    let devices = match model::card_at(v.devices, id, 0) {
        Some(i) => v.devices.remove(i),
        None => v.devices,
    };
    let selected_id = if v.selected_id == Some(id) {
        None
    } else {
        v.selected_id
    };
    logged(
        AppView {
            devices,
            selected_id,
            plugins: if v.selected_id == Some(id) {
                Seq::empty()
            } else {
                v.plugins
            },
            selected: match selected_id {
                Some(s) => model::card_at(devices, s, 0),
                None => None,
            },
            pair_target: if v.pair_target == Some(id) {
                None
            } else {
                v.pair_target
            },
            unpair_target: if v.unpair_target == Some(id) {
                None
            } else {
                v.unpair_target
            },
            ..v
        },
        "device lost: "@ + id,
    )
}

/// The transfers after an event about the one with the given id.
pub open spec fn transfers_after(
    rows: Seq<TransferRow<Seq<char>>>,
    id: Seq<char>,
    event: ServerEvent<Seq<char>>,
) -> Seq<TransferRow<Seq<char>>> {
    match model::transfer_at(rows, id, 0) {
        Some(i) => rows.update(i, model::progressed(rows[i], event)),
        None => rows,
    }
}

/// The transfers with a placeholder for one that was never announced.
pub open spec fn with_placeholder(rows: Seq<TransferRow<Seq<char>>>, id: Seq<char>) -> Seq<
    TransferRow<Seq<char>>,
> {
    match model::transfer_at(rows, id, 0) {
        Some(_) => rows,
        None => rows.push(TransferRow { id, name: id, done: 0, total: 0 }),
    }
}

/// The transfers but for those with the given id.
pub open spec fn transfers_without(rows: Seq<TransferRow<Seq<char>>>, id: Seq<char>) -> Seq<
    TransferRow<Seq<char>>,
> {
    rows.filter(|r: TransferRow<Seq<char>>| r.id != id)
}

/// The notifications but for those with the given id.
pub open spec fn notifications_without(rows: Seq<NotifRow<Seq<char>>>, id: Seq<char>) -> Seq<
    NotifRow<Seq<char>>,
> {
    rows.filter(|r: NotifRow<Seq<char>>| r.id != id)
}

/// The notifications with a new one in front; too many lose their oldest.
pub open spec fn notified(rows: Seq<NotifRow<Seq<char>>>, row: NotifRow<Seq<char>>) -> Seq<
    NotifRow<Seq<char>>,
> {
    let all = seq![row] + rows;
    if all.len() > NOTIF_CAP {
        all.drop_last()
    } else {
        all
    }
}

/// The state after a server-pushed event. Battery, telephony, volume and
/// command-result events change nothing.
#[verifier::opaque]
pub open spec fn after_event(v: AppView, event: ServerEvent<Seq<char>>) -> AppView {
    match event {
        ServerEvent::Hello { version, app, pid } => greeted(v, version, app, pid),
        ServerEvent::DeviceFound { id, name } => device_found(v, id, name),
        ServerEvent::DeviceLost { id } => device_lost(v, id),
        ServerEvent::DeviceStateChanged { id, state } => AppView {
            devices: changed_card(
                v.devices,
                id,
                |c: DeviceCard<Seq<char>>| model::in_state(c, state),
            ),
            ..v
        },
        ServerEvent::TransferAdded { id, direction, file_name, total, .. } => logged(
            AppView {
                transfers: model::transfer_upserted(
                    v.transfers,
                    TransferRow { id, name: file_name, done: 0, total },
                ),
                ..v
            },
            "transfer "@ + direction + ": "@ + file_name,
        ),
        ServerEvent::TransferProgress { id, .. } => AppView {
            transfers: transfers_after(with_placeholder(v.transfers, id), id, event),
            ..v
        },
        ServerEvent::TransferFinished { id } => logged(
            AppView { transfers: transfers_after(v.transfers, id, event), ..v },
            "transfer finished: "@ + id,
        ),
        ServerEvent::TransferFailed { id, reason } => logged(
            AppView { transfers: transfers_without(v.transfers, id), ..v },
            "[error] transfer failed: "@ + reason,
        ),
        ServerEvent::NotificationReceived { id, app, title, body } => AppView {
            notifications: notified(v.notifications, NotifRow { id, app, title, body }),
            ..v
        },
        ServerEvent::ClipboardUpdated { text } => logged(
            v,
            "remote clipboard: "@ + clamped(text, CLIPBOARD_LINE as int),
        ),
        ServerEvent::LogRecord { level, msg } => logged(v, "["@ + level + "] "@ + msg),
        ServerEvent::DaemonShutdown => bannered(
            logged(v, "daemon shut down"@),
            "daemon shut down; waiting for it to come back"@,
        ),
        _ => v,
    }
}

/// The state after a file was to be queued, and the effects.
#[verifier::opaque]
pub open spec fn file_queued(v: AppView) -> (AppView, Seq<Effect<Seq<char>>>) {
    let path = text::trimmed(v.file_path_draft);
    match selection(v) {
        None => (bannered(v, "select a device first"@), Seq::empty()),
        Some(device_id) => if path.len() == 0 {
            (bannered(v, "enter an absolute file path first"@), Seq::empty())
        } else {
            dispatched(v, BridgeIn::SendFile { device_id, path })
        },
    }
}

/// The state after the clipboard draft was to be sent, and the effects.
#[verifier::opaque]
pub open spec fn clipboard_sent(v: AppView) -> (AppView, Seq<Effect<Seq<char>>>) {
    let text = text::trimmed(v.clipboard_draft);
    if text.len() == 0 {
        (AppView { clipboard_status: Some("nothing to send"@), ..v }, Seq::empty())
    } else {
        dispatched(
            AppView { clipboard_status: Some("sending"@), ..v },
            BridgeIn::ClipboardSet(text),
        )
    }
}

/// The state after a device card was clicked, and the effects.
#[verifier::opaque]
pub open spec fn device_selected(v: AppView, index: usize) -> (AppView, Seq<Effect<Seq<char>>>) {
    if index < v.devices.len() {
        let id = v.devices[index as int].id;
        dispatched(
            AppView {
                selected_id: Some(id),
                selected: Some(index as int),
                plugins: Seq::empty(),
                ..v
            },
            BridgeIn::ListPlugins(id),
        )
    } else {
        (v, Seq::empty())
    }
}

/// The state after the acknowledgement of a clipboard write.
#[verifier::opaque]
pub open spec fn clipboard_acknowledged(v: AppView, result: Result<(), Seq<char>>) -> AppView {
    match result {
        Ok(_) => logged(
            AppView { clipboard_status: Some("copied to daemon"@), ..v },
            "clipboard sent"@,
        ),
        Err(e) => logged(
            AppView { clipboard_status: Some("error: "@ + e), ..v },
            "[error] clipboard send failed: "@ + e,
        ),
    }
}

/// The state after new plugin rows came; stored toggles win over them.
#[verifier::opaque]
pub open spec fn plugins_loaded(v: AppView, rows: Seq<PluginRow<Seq<char>>>) -> AppView {
    logged(
        AppView {
            plugins: match selection(v) {
                Some(device_id) => model::overlaid(rows, device_id, v.plugin_toggles),
                None => rows,
            },
            ..v
        },
        "loaded "@ + text::decimal(rows.len()) + " plugin(s)"@,
    )
}

/// The state after a message, and the effects.
pub open spec fn reduced(v: AppView, message: MessageView) -> (AppView, Seq<Effect<Seq<char>>>) {
    match message {
        MessageView::Nothing => (v, Seq::empty()),
        MessageView::TabSelected(tab) => (AppView { tab, ..v }, Seq::empty()),
        MessageView::BannerClosed => (AppView { banner: None, ..v }, Seq::empty()),
        MessageView::IpcStatus(conn) => (
            AppView {
                conn,
                banner: if conn == ConnState::Connected {
                    None
                } else {
                    v.banner
                },
                ..v
            },
            Seq::empty(),
        ),
        MessageView::BridgeReady => (AppView { bridge: true, ..v }, Seq::empty()),
        MessageView::ConnectionLost(text) => (bannered(v, text), Seq::empty()),
        MessageView::LoadFailed(text) => (bannered(v, "load failed: "@ + text), Seq::empty()),
        MessageView::DevicesLoaded(cards) => (
            logged(
                AppView {
                    devices: cards,
                    selected: None,
                    selected_id: None,
                    plugins: Seq::empty(),
                    ..v
                },
                "loaded "@ + text::decimal(cards.len()) + " device(s)"@,
            ),
            Seq::empty(),
        ),
        MessageView::PluginsLoaded(rows) => (plugins_loaded(v, rows), Seq::empty()),
        MessageView::NotificationsLoaded(rows) => (
            AppView { notifications: rows, ..v },
            Seq::empty(),
        ),
        MessageView::Paired(result) => (pairing_finished(v, result, false), Seq::empty()),
        MessageView::Unpaired(result) => (pairing_finished(v, result, true), Seq::empty()),
        MessageView::FileQueued(result) => (
            match result {
                Ok(_) => logged(v, "file queued for transfer"@),
                Err(e) => bannered(v, "send failed: "@ + e),
            },
            Seq::empty(),
        ),
        MessageView::Dismissed(result) => (
            match result {
                Ok(_) => logged(v, "notification dismissed"@),
                Err(e) => bannered(v, "dismiss failed: "@ + e),
            },
            Seq::empty(),
        ),
        MessageView::PluginSet(result) => (
            match result {
                Ok(_) => v,
                Err(e) => bannered(v, "plugin change failed: "@ + e),
            },
            Seq::empty(),
        ),
        MessageView::ClipboardSet(result) => (clipboard_acknowledged(v, result), Seq::empty()),
        MessageView::Event(event) => (after_event(v, event), Seq::empty()),
        MessageView::DeviceSelected(index) => device_selected(v, index),
        MessageView::PairPressed(id) => dispatched(
            AppView {
                devices: changed_card(v.devices, id, relabelled("pairing"@)),
                pair_target: Some(id),
                ..v
            },
            BridgeIn::Pair(id),
        ),
        MessageView::UnpairPressed(id) => dispatched(
            AppView {
                devices: changed_card(v.devices, id, relabelled("unpairing"@)),
                unpair_target: Some(id),
                ..v
            },
            BridgeIn::Unpair(id),
        ),
        MessageView::TogglePlugin(name, enabled) => {
            let v1 = AppView { plugins: flipped(v.plugins, name, enabled), ..v };
            match selection(v) {
                Some(device_id) => toggled(v1, device_id, name, enabled),
                None => (v1, Seq::empty()),
            }
        },
        MessageView::SettingsPressed => (
            AppView { settings_open: !v.settings_open, ..v },
            Seq::empty(),
        ),
        MessageView::ToggleSavedPlugin(key, enabled) => match model::key_parts(key) {
            Some((device_id, plugin)) => toggled(v, device_id, plugin, enabled),
            None => (bannered(v, "malformed plugin toggle key: "@ + key), Seq::empty()),
        },
        MessageView::QueueFilePressed => file_queued(v),
        MessageView::PathChanged(path) => (AppView { file_path_draft: path, ..v }, Seq::empty()),
        MessageView::ClipboardChanged(text) => (
            AppView { clipboard_draft: text, ..v },
            Seq::empty(),
        ),
        MessageView::SendPressed => clipboard_sent(v),
        MessageView::RefreshPressed => dispatched(v, BridgeIn::RefreshDevices),
        MessageView::DismissPressed(id) => dispatched(
            AppView { notifications: notifications_without(v.notifications, id), ..v },
            BridgeIn::DismissNotification(id),
        ),
    }
}

/// The state before anything happened.
pub open spec fn fresh(toggles: Map<Seq<char>, bool>) -> AppView {
    AppView {
        conn: ConnState::Disconnected,
        tab: Tab::Devices,
        devices: Seq::empty(),
        selected: None,
        selected_id: None,
        plugins: Seq::empty(),
        transfers: Seq::empty(),
        notifications: Seq::empty(),
        logs: seq!["handfast-gui started"@],
        banner: None,
        bridge: false,
        pair_target: None,
        unpair_target: None,
        clipboard_draft: Seq::empty(),
        clipboard_status: None,
        file_path_draft: Seq::empty(),
        daemon_version: None,
        settings_open: false,
        plugin_toggles: toggles,
    }
}

fn is_text(t: &Option<String>, s: &str) -> (r: bool)
    ensures
        r == (battery::optional_text(*t) == Some(s@)),
{
    match t {
        Some(u) => text::same(u.as_str(), s),
        None => false,
    }
}

impl HandfastApp {
    /// Initial state over the stored plugin toggles.
    pub fn new(plugin_toggles: PluginToggles) -> (r: Self)
        ensures
            r@ == fresh(plugin_toggles@),
    {
        let logs: Vec<String> = vec!["handfast-gui started".to_owned()];
        let r = HandfastApp {
            conn: ConnState::Disconnected,
            tab: Tab::Devices,
            devices: Vec::new(),
            selected: None,
            selected_id: None,
            plugins: Vec::new(),
            transfers: Vec::new(),
            notifications: Vec::new(),
            logs,
            banner: None,
            bridge: false,
            pair_target: None,
            unpair_target: None,
            clipboard_draft: String::new(),
            clipboard_status: None,
            file_path_draft: String::new(),
            daemon_version: None,
            settings_open: false,
            plugin_toggles,
        };
        assert(r@ =~= fresh(plugin_toggles@));
        r
    }

    /// Append a line to the bounded log buffer.
    fn push_log(&mut self, line: String)
        ensures
            final(self)@ == logged(old(self)@, line@),
    {
        proof {
            reveal(logged);
        }
        let ghost before = self@;
        let ghost added = line@;
        if self.logs.len() >= LOG_CAP {
            self.logs.remove(0);
        }
        self.logs.push(line);
        assert(self@.logs =~= logged(before, added).logs);
        assert(self@ =~= logged(before, added));
    }

    /// Record a user-facing error: banner plus a matching log line.
    fn set_banner(&mut self, text: String)
        ensures
            final(self)@ == bannered(old(self)@, text@),
    {
        proof {
            reveal(bannered);
        }
        self.push_log("[error] ".to_owned().concat(text.as_str()));
        self.banner = Some(text);
    }

    /// A command could not be delivered to the driver of the connection.
    pub fn not_delivered(&mut self, command: &BridgeIn)
        ensures
            final(self)@ == undelivered(old(self)@, command@),
    {
        match command {
            BridgeIn::ClipboardSet(_) => {
                self.clipboard_status = Some("not connected".to_owned());
            },
            BridgeIn::DismissNotification(_) => {},
            _ => {
                self.set_banner("not connected".to_owned());
            },
        }
    }

    /// The plugin toggles could not be written to disk.
    pub fn toggles_not_saved(&mut self, error: &str)
        ensures
            final(self)@ == logged(
                old(self)@,
                "[warn] persisting plugin toggles failed: "@ + error@,
            ),
    {
        self.push_log("[warn] persisting plugin toggles failed: ".to_owned().concat(error));
    }

    /// Best-effort command dispatch.
    fn dispatch(&mut self, command: BridgeIn) -> (r: Vec<Effect>)
        ensures
            final(self)@ == dispatched(old(self)@, command@).0,
            effects_view(r@) == dispatched(old(self)@, command@).1,
    {
        proof {
            reveal(dispatched);
        }
        let ghost sent = Effect::Send(command@);
        let mut effects: Vec<Effect> = Vec::new();
        if self.bridge {
            effects.push(Effect::Send(command));
            assert(effects_view(effects@) =~= seq![sent]);
        } else {
            self.not_delivered(&command);
            assert(effects_view(effects@) =~= Seq::empty());
        }
        effects
    }

    /// Id of the currently selected device, if still present.
    fn selected_device_id(&self) -> (r: Option<String>)
        ensures
            battery::optional_text(r) == selection(self@),
    {
        match self.selected {
            Some(index) => if index < self.devices.len() {
                Some(self.devices[index].id.clone())
            } else {
                None
            },
            None => None,
        }
    }

    /// Recompute the selection index from its stable id.
    fn sync_selection(&mut self)
        ensures
            final(self)@ == (AppView {
                selected: match old(self)@.selected_id {
                    Some(id) => model::card_at(old(self)@.devices, id, 0),
                    None => None,
                },
                ..old(self)@
            }),
    {
        self.selected = match &self.selected_id {
            Some(id) => model::find_card(&self.devices, id.as_str()),
            None => None,
        };
    }

    /// Puts a changed card in the place of the one at `index`.
    fn replace_card(&mut self, index: usize, card: DeviceCard)
        requires
            index < old(self).devices@.len(),
        ensures
            final(self)@ == (AppView {
                devices: old(self)@.devices.update(index as int, card@),
                ..old(self)@
            }),
    {
        let ghost before = self@;
        let ghost new = card@;
        self.devices.set(index, card);
        assert(self@.devices =~= before.devices.update(index as int, new));
    }

    /// Gives the device with the given id another state label.
    fn relabel(&mut self, id: &str, state: &str)
        ensures
            final(self)@ == (AppView {
                devices: changed_card(old(self)@.devices, id@, relabelled(state@)),
                ..old(self)@
            }),
    {
        if let Some(i) = model::find_card(&self.devices, id) {
            let mut card = self.devices[i].clone();
            card.state = state.to_owned();
            self.replace_card(i, card);
        }
    }

    /// Apply a pair/unpair acknowledgement to the pending target device.
    fn finish_pairing(&mut self, result: Result<(), String>, unpair: bool)
        ensures
            final(self)@ == pairing_finished(old(self)@, outcome_view(result), unpair),
    {
        proof {
            reveal(pairing_finished);
        }
        let mut target: Option<String> = None;
        if unpair {
            std::mem::swap(&mut target, &mut self.unpair_target);
        } else {
            std::mem::swap(&mut target, &mut self.pair_target);
        }
        match result {
            Ok(()) => {
                if let Some(id) = target {
                    if let Some(i) = model::find_card(&self.devices, id.as_str()) {
                        let mut card = self.devices[i].clone();
                        card.paired = !unpair;
                        card.state = if unpair {
                            "found".to_owned()
                        } else {
                            "paired".to_owned()
                        };
                        self.replace_card(i, card);
                    }
                    let line = if unpair {
                        "unpaired ".to_owned().concat(id.as_str())
                    } else {
                        "paired with ".to_owned().concat(id.as_str())
                    };
                    self.push_log(line);
                }
            },
            Err(err) => {
                if let Some(id) = target {
                    if let Some(i) = model::find_card(&self.devices, id.as_str()) {
                        let mut card = self.devices[i].clone();
                        if unpair && text::same(card.state.as_str(), "unpairing") {
                            card.state = "paired".to_owned();
                        } else if !unpair && text::same(card.state.as_str(), "pairing") {
                            card.state = "found".to_owned();
                        }
                        self.replace_card(i, card);
                    }
                }
                let line = if unpair {
                    "unpairing failed: ".to_owned().concat(err.as_str())
                } else {
                    "pairing failed: ".to_owned().concat(err.as_str())
                };
                self.set_banner(line);
            },
        }
    }

    /// Record one device-scoped plugin toggle and send it.
    fn record_plugin_toggle(&mut self, device_id: &str, plugin: &str, enabled: bool) -> (r: Vec<
        Effect,
    >)
        ensures
            final(self)@ == toggled(old(self)@, device_id@, plugin@, enabled).0,
            effects_view(r@) == toggled(old(self)@, device_id@, plugin@, enabled).1,
    {
        proof {
            reveal(toggled);
        }
        self.plugin_toggles.insert(model::toggle_key(device_id, plugin), enabled);
        let command = BridgeIn::SetPlugin {
            device_id: device_id.to_owned(),
            plugin: plugin.to_owned(),
            enabled,
        };
        let last = if self.bridge {
            Effect::Send(command)
        } else {
            Effect::Undelivered(command)
        };
        let ghost then = last@;
        let effects: Vec<Effect> = vec![Effect::SaveToggles, last];
        assert(effects_view(effects@) =~= seq![Effect::<Seq<char>>::SaveToggles, then]);
        effects
    }

    /// Switches the row of the named plugin.
    fn flip_plugin(&mut self, name: &str, enabled: bool)
        ensures
            final(self)@ == (AppView {
                plugins: flipped(old(self)@.plugins, name@, enabled),
                ..old(self)@
            }),
    {
        let ghost before = self@;
        let mut i: usize = 0;
        while i < self.plugins.len()
            invariant
                i <= self.plugins.len(),
                self@ == before,
                before == old(self)@,
                plugin_at(before.plugins, name@, 0) == plugin_at(before.plugins, name@, i as int),
            decreases self.plugins.len() - i,
        {
            assert(before.plugins[i as int].name == self.plugins@[i as int].name@);
            if text::same(self.plugins[i].name.as_str(), name) {
                let mut row = self.plugins[i].clone();
                row.enabled = enabled;
                let ghost new = row@;
                self.plugins.set(i, row);
                assert(self@.plugins =~= before.plugins.update(i as int, new));
                return;
            }
            i += 1;
        }
    }

    fn hello(&mut self, version: u32, name: &str, pid: u32)
        ensures
            final(self)@ == greeted(old(self)@, version, name@, pid),
    {
        let offered = text::decimal_text(version as u128);
        self.daemon_version = Some(offered.clone());
        self.push_log(
            "hello: ".to_owned().concat(name).concat(" pid ").concat(
                text::decimal_text(pid as u128).as_str(),
            ).concat(" (ipc v").concat(offered.as_str()).concat(")"),
        );
        if version != IPC_VERSION {
            self.push_log(
                "[warn] protocol mismatch: gui speaks v".to_owned().concat(
                    text::decimal_text(IPC_VERSION as u128).as_str(),
                ).concat(", daemon offers v").concat(offered.as_str()),
            );
        }
    }

    fn found(&mut self, id: &str, name: &str)
        ensures
            final(self)@ == device_found(old(self)@, id@, name@),
    {
        let mut card = match model::find_card(&self.devices, id) {
            Some(i) => self.devices[i].clone(),
            None => DeviceCard::from_found(id, name),
        };
        card.name = name.to_owned();
        DeviceCard::upsert(&mut self.devices, card);
    }

    fn lost(&mut self, id: &str)
        ensures
            final(self)@ == device_lost(old(self)@, id@),
    {
        let ghost before = self@;
        if let Some(index) = model::find_card(&self.devices, id) {
            self.devices.remove(index);
            assert(self@.devices =~= before.devices.remove(index as int));
        }
        if is_text(&self.selected_id, id) {
            self.selected_id = None;
            self.plugins = Vec::new();
            assert(self@.plugins =~= Seq::empty());
        }
        self.sync_selection();
        if is_text(&self.pair_target, id) {
            self.pair_target = None;
        }
        if is_text(&self.unpair_target, id) {
            self.unpair_target = None;
        }
        self.push_log("device lost: ".to_owned().concat(id));
    }

    fn state_changed(&mut self, id: &str, state: &str)
        ensures
            final(self)@ == (AppView {
                devices: changed_card(
                    old(self)@.devices,
                    id@,
                    |c: DeviceCard<Seq<char>>| model::in_state(c, state@),
                ),
                ..old(self)@
            }),
    {
        if let Some(i) = model::find_card(&self.devices, id) {
            let mut card = self.devices[i].clone();
            card.apply_state(state);
            self.replace_card(i, card);
        }
    }

    fn update_transfer(&mut self, id: &str, event: &ServerEvent)
        ensures
            final(self)@ == (AppView {
                transfers: transfers_after(old(self)@.transfers, id@, event@),
                ..old(self)@
            }),
    {
        let ghost before = self@;
        if let Some(i) = model::find_transfer(&self.transfers, id) {
            let mut row = self.transfers[i].clone();
            row.update(event);
            let ghost new = row@;
            self.transfers.set(i, row);
            assert(self@.transfers =~= before.transfers.update(i as int, new));
        }
    }

    fn ensure_transfer(&mut self, id: &str)
        ensures
            final(self)@ == (AppView {
                transfers: with_placeholder(old(self)@.transfers, id@),
                ..old(self)@
            }),
    {
        let ghost before = self@;
        if model::find_transfer(&self.transfers, id).is_none() {
            let row = TransferRow { id: id.to_owned(), name: id.to_owned(), done: 0, total: 0 };
            let ghost new = row@;
            self.transfers.push(row);
            assert(self@.transfers =~= before.transfers.push(new));
        }
    }

    fn drop_transfer(&mut self, id: &str)
        ensures
            final(self)@ == (AppView {
                transfers: transfers_without(old(self)@.transfers, id@),
                ..old(self)@
            }),
    {
        let ghost rows = self@.transfers;
        let ghost keep = |r: TransferRow<Seq<char>>| r.id != id@;
        let mut out: Vec<TransferRow> = Vec::new();
        let mut i: usize = 0;
        proof {
            reveal(Seq::filter);
            assert(rows.take(0) =~= Seq::empty());
            assert(model::transfers_view(out@) =~= Seq::empty());
        }
        while i < self.transfers.len()
            invariant
                i <= self.transfers.len(),
                rows == model::transfers_view(self.transfers@),
                keep == (|r: TransferRow<Seq<char>>| r.id != id@),
                model::transfers_view(out@) == rows.take(i as int).filter(keep),
            decreases self.transfers.len() - i,
        {
            proof {
                reveal(Seq::filter);
                assert(rows.take(i + 1).drop_last() =~= rows.take(i as int));
                assert(rows.take(i + 1).last() == self.transfers@[i as int]@);
            }
            if !text::same(self.transfers[i].id.as_str(), id) {
                let ghost before = model::transfers_view(out@);
                let row = self.transfers[i].clone();
                let ghost new = row@;
                out.push(row);
                assert(model::transfers_view(out@) =~= before.push(new));
            }
            i += 1;
        }
        assert(rows.take(i as int) =~= rows);
        self.transfers = out;
    }

    fn drop_notification(&mut self, id: &str)
        ensures
            final(self)@ == (AppView {
                notifications: notifications_without(old(self)@.notifications, id@),
                ..old(self)@
            }),
    {
        let ghost rows = self@.notifications;
        let ghost keep = |r: NotifRow<Seq<char>>| r.id != id@;
        let mut out: Vec<NotifRow> = Vec::new();
        let mut i: usize = 0;
        proof {
            reveal(Seq::filter);
            assert(rows.take(0) =~= Seq::empty());
            assert(model::notifs_view(out@) =~= Seq::empty());
        }
        while i < self.notifications.len()
            invariant
                i <= self.notifications.len(),
                rows == model::notifs_view(self.notifications@),
                keep == (|r: NotifRow<Seq<char>>| r.id != id@),
                model::notifs_view(out@) == rows.take(i as int).filter(keep),
            decreases self.notifications.len() - i,
        {
            proof {
                reveal(Seq::filter);
                assert(rows.take(i + 1).drop_last() =~= rows.take(i as int));
                assert(rows.take(i + 1).last() == self.notifications@[i as int]@);
            }
            if !text::same(self.notifications[i].id.as_str(), id) {
                let ghost before = model::notifs_view(out@);
                let row = self.notifications[i].clone();
                let ghost new = row@;
                out.push(row);
                assert(model::notifs_view(out@) =~= before.push(new));
            }
            i += 1;
        }
        assert(rows.take(i as int) =~= rows);
        self.notifications = out;
    }

    fn notify(&mut self, row: NotifRow)
        ensures
            final(self)@ == (AppView {
                notifications: notified(old(self)@.notifications, row@),
                ..old(self)@
            }),
    {
        let ghost before = self@;
        let ghost new = row@;
        self.notifications.insert(0, row);
        assert(self@.notifications =~= seq![new] + before.notifications);
        if self.notifications.len() > NOTIF_CAP {
            self.notifications.pop();
            assert(self@.notifications =~= (seq![new] + before.notifications).drop_last());
        }
    }

    /// Fan-in handler for every server-pushed event.
    pub fn handle_event(&mut self, event: &ServerEvent)
        ensures
            final(self)@ == after_event(old(self)@, event@),
    {
        proof {
            reveal(after_event);
        }
        match event {
            ServerEvent::Hello { version, app, pid } => {
                self.hello(*version, app.as_str(), *pid);
            },
            ServerEvent::DeviceFound { id, name } => {
                self.found(id.as_str(), name.as_str());
            },
            ServerEvent::DeviceLost { id } => {
                self.lost(id.as_str());
            },
            ServerEvent::DeviceStateChanged { id, state } => {
                self.state_changed(id.as_str(), state.as_str());
            },
            ServerEvent::TransferAdded { id, direction, file_name, total, .. } => {
                TransferRow::upsert(
                    &mut self.transfers,
                    TransferRow {
                        id: id.clone(),
                        name: file_name.clone(),
                        done: 0,
                        total: *total,
                    },
                );
                self.push_log(
                    "transfer ".to_owned().concat(direction.as_str()).concat(": ").concat(
                        file_name.as_str(),
                    ),
                );
            },
            ServerEvent::TransferProgress { id, .. } => {
                self.ensure_transfer(id.as_str());
                self.update_transfer(id.as_str(), event);
            },
            ServerEvent::TransferFinished { id } => {
                self.update_transfer(id.as_str(), event);
                self.push_log("transfer finished: ".to_owned().concat(id.as_str()));
            },
            ServerEvent::TransferFailed { id, reason } => {
                self.drop_transfer(id.as_str());
                self.push_log("[error] transfer failed: ".to_owned().concat(reason.as_str()));
            },
            ServerEvent::NotificationReceived { id, app, title, body } => {
                self.notify(
                    NotifRow {
                        id: id.clone(),
                        app: app.clone(),
                        title: title.clone(),
                        body: body.clone(),
                    },
                );
            },
            ServerEvent::ClipboardUpdated { text } => {
                self.push_log(
                    "remote clipboard: ".to_owned().concat(
                        clamp_line(text.as_str(), CLIPBOARD_LINE).as_str(),
                    ),
                );
            },
            ServerEvent::LogRecord { level, msg } => {
                self.push_log(
                    "[".to_owned().concat(level.as_str()).concat("] ").concat(msg.as_str()),
                );
            },
            ServerEvent::DaemonShutdown => {
                self.push_log("daemon shut down".to_owned());
                self.set_banner("daemon shut down; waiting for it to come back".to_owned());
            },
            _ => {},
        }
    }

    fn queue_file(&mut self) -> (r: Vec<Effect>)
        ensures
            final(self)@ == file_queued(old(self)@).0,
            effects_view(r@) == file_queued(old(self)@).1,
    {
        proof {
            reveal(file_queued);
        }
        let effects: Vec<Effect> = Vec::new();
        assert(effects_view(effects@) =~= Seq::empty());
        match self.selected_device_id() {
            None => {
                self.set_banner("select a device first".to_owned());
                effects
            },
            Some(device_id) => {
                let path = text::trim(self.file_path_draft.as_str());
                if path.as_str().is_empty() {
                    self.set_banner("enter an absolute file path first".to_owned());
                    effects
                } else {
                    self.dispatch(BridgeIn::SendFile { device_id, path })
                }
            },
        }
    }

    fn send_clipboard(&mut self) -> (r: Vec<Effect>)
        ensures
            final(self)@ == clipboard_sent(old(self)@).0,
            effects_view(r@) == clipboard_sent(old(self)@).1,
    {
        proof {
            reveal(clipboard_sent);
        }
        let draft = text::trim(self.clipboard_draft.as_str());
        if draft.as_str().is_empty() {
            self.clipboard_status = Some("nothing to send".to_owned());
            let effects: Vec<Effect> = Vec::new();
            assert(effects_view(effects@) =~= Seq::empty());
            effects
        } else {
            self.clipboard_status = Some("sending".to_owned());
            self.dispatch(BridgeIn::ClipboardSet(draft))
        }
    }

    fn select_device(&mut self, index: usize) -> (r: Vec<Effect>)
        ensures
            final(self)@ == device_selected(old(self)@, index).0,
            effects_view(r@) == device_selected(old(self)@, index).1,
    {
        proof {
            reveal(device_selected);
        }
        if index < self.devices.len() {
            let id = self.devices[index].id.clone();
            self.selected_id = Some(id.clone());
            self.selected = Some(index);
            self.plugins = Vec::new();
            assert(self@.plugins =~= Seq::empty());
            self.dispatch(BridgeIn::ListPlugins(id))
        } else {
            let effects: Vec<Effect> = Vec::new();
            assert(effects_view(effects@) =~= Seq::empty());
            effects
        }
    }

    fn load_plugins(&mut self, rows: Vec<PluginRow>)
        ensures
            final(self)@ == plugins_loaded(old(self)@, model::plugins_view(rows@)),
    {
        proof {
            reveal(plugins_loaded);
        }
        let count = rows.len();
        let chosen = self.selected_device_id();
        self.plugins = rows;
        if let Some(device_id) = chosen {
            model::apply_persisted_toggles(
                &mut self.plugins,
                device_id.as_str(),
                &self.plugin_toggles,
            );
        }
        self.push_log(
            "loaded ".to_owned().concat(text::decimal_text(count as u128).as_str()).concat(
                " plugin(s)",
            ),
        );
    }

    fn load_devices(&mut self, cards: Vec<DeviceCard>)
        ensures
            final(self)@ == reduced(
                old(self)@,
                MessageView::DevicesLoaded(model::cards_view(cards@)),
            ).0,
    {
        let count = cards.len();
        self.devices = cards;
        self.selected = None;
        self.selected_id = None;
        self.plugins = Vec::new();
        assert(self@.plugins =~= Seq::empty());
        self.push_log(
            "loaded ".to_owned().concat(text::decimal_text(count as u128).as_str()).concat(
                " device(s)",
            ),
        );
    }

    fn clipboard_done(&mut self, result: Result<(), String>)
        ensures
            final(self)@ == clipboard_acknowledged(old(self)@, outcome_view(result)),
    {
        proof {
            reveal(clipboard_acknowledged);
        }
        match result {
            Ok(()) => {
                self.clipboard_status = Some("copied to daemon".to_owned());
                self.push_log("clipboard sent".to_owned());
            },
            Err(err) => {
                self.clipboard_status = Some("error: ".to_owned().concat(err.as_str()));
                self.push_log("[error] clipboard send failed: ".to_owned().concat(err.as_str()));
            },
        }
    }

    /// The reducer: takes a message and gives the effects to perform.
    #[verifier::spinoff_prover]
    pub fn update(&mut self, message: Message) -> (r: Vec<Effect>)
        ensures
            final(self)@ == reduced(old(self)@, message@).0,
            effects_view(r@) == reduced(old(self)@, message@).1,
    {
        let effects: Vec<Effect> = Vec::new();
        assert(effects_view(effects@) =~= Seq::empty());
        match message {
            Message::Nothing => {},
            Message::TabSelected(tab) => {
                self.tab = tab;
            },
            Message::BannerClosed => {
                self.banner = None;
            },
            Message::IpcStatus(state) => {
                self.conn = state;
                if state == ConnState::Connected {
                    self.banner = None;
                }
            },
            Message::BridgeReady => {
                self.bridge = true;
            },
            Message::ConnectionLost(text) => {
                self.set_banner(text);
            },
            Message::LoadFailed(text) => {
                self.set_banner("load failed: ".to_owned().concat(text.as_str()));
            },
            Message::DevicesLoaded(cards) => {
                self.load_devices(cards);
            },
            Message::PluginsLoaded(rows) => {
                self.load_plugins(rows);
            },
            Message::NotificationsLoaded(rows) => {
                self.notifications = rows;
            },
            Message::Paired(result) => {
                self.finish_pairing(result, false);
            },
            Message::Unpaired(result) => {
                self.finish_pairing(result, true);
            },
            Message::FileQueued(result) => {
                match result {
                    Ok(()) => {
                        self.push_log("file queued for transfer".to_owned());
                    },
                    Err(err) => {
                        self.set_banner("send failed: ".to_owned().concat(err.as_str()));
                    },
                }
            },
            Message::Dismissed(result) => {
                match result {
                    Ok(()) => {
                        self.push_log("notification dismissed".to_owned());
                    },
                    Err(err) => {
                        self.set_banner("dismiss failed: ".to_owned().concat(err.as_str()));
                    },
                }
            },
            Message::PluginSet(result) => {
                if let Err(err) = result {
                    self.set_banner("plugin change failed: ".to_owned().concat(err.as_str()));
                }
            },
            Message::ClipboardSet(result) => {
                self.clipboard_done(result);
            },
            Message::Event(event) => {
                self.handle_event(&event);
            },
            Message::DeviceSelected(index) => {
                return self.select_device(index);
            },
            Message::PairPressed(id) => {
                self.relabel(id.as_str(), "pairing");
                self.pair_target = Some(id.clone());
                return self.dispatch(BridgeIn::Pair(id));
            },
            Message::UnpairPressed(id) => {
                self.relabel(id.as_str(), "unpairing");
                self.unpair_target = Some(id.clone());
                return self.dispatch(BridgeIn::Unpair(id));
            },
            Message::TogglePlugin(name, enabled) => {
                self.flip_plugin(name.as_str(), enabled);
                if let Some(device_id) = self.selected_device_id() {
                    return self.record_plugin_toggle(device_id.as_str(), name.as_str(), enabled);
                }
            },
            Message::SettingsPressed => {
                self.settings_open = !self.settings_open;
            },
            Message::ToggleSavedPlugin(key, enabled) => {
                match model::split_toggle_key(key.as_str()) {
                    Some((device_id, plugin)) => {
                        return self.record_plugin_toggle(
                            device_id.as_str(),
                            plugin.as_str(),
                            enabled,
                        );
                    },
                    None => {
                        self.set_banner(
                            "malformed plugin toggle key: ".to_owned().concat(key.as_str()),
                        );
                    },
                }
            },
            Message::QueueFilePressed => {
                return self.queue_file();
            },
            Message::DismissPressed(id) => {
                self.drop_notification(id.as_str());
                return self.dispatch(BridgeIn::DismissNotification(id));
            },
            Message::PathChanged(path) => {
                self.file_path_draft = path;
            },
            Message::ClipboardChanged(text) => {
                self.clipboard_draft = text;
            },
            Message::SendPressed => {
                return self.send_clipboard();
            },
            Message::RefreshPressed => {
                return self.dispatch(BridgeIn::RefreshDevices);
            },
        }
        effects
    }
}

impl Default for HandfastApp {
    fn default() -> (r: Self)
        ensures
            r@ == fresh(Map::empty()),
    {
        HandfastApp::new(PluginToggles::new())
    }
}

/// Trim long single-line payloads for the log view.
pub fn clamp_line(text: &str, max_chars: usize) -> (r: String)
    ensures
        r@ == clamped(text@, max_chars as int),
{
    let chars = text::to_chars(text);
    if chars.len() <= max_chars {
        return text.to_owned();
    }
    if max_chars < 3 {
        return "...".to_owned();
    }
    assert(chars@.subrange(0, max_chars - 3) =~= text@.take(max_chars - 3));
    text::range_string(&chars, 0, max_chars - 3).concat("...")
}

/// The log never holds more than [`LOG_CAP`] lines.
pub proof fn law_log_is_bounded(v: AppView, message: MessageView)
    requires
        v.logs.len() <= LOG_CAP,
    ensures
        reduced(v, message).0.logs.len() <= LOG_CAP,
{
    reveal(logged);
    reveal(bannered);
    reveal(dispatched);
    reveal(toggled);
    reveal(after_event);
    reveal(pairing_finished);
    reveal(plugins_loaded);
    reveal(clipboard_acknowledged);
    reveal(file_queued);
    reveal(clipboard_sent);
    reveal(device_selected);
}

/// No event makes more than [`NOTIF_CAP`] notifications out of fewer.
pub proof fn law_notifications_are_bounded(v: AppView, message: MessageView)
    requires
        v.notifications.len() <= NOTIF_CAP,
        message matches MessageView::NotificationsLoaded(rows) ==> rows.len() <= NOTIF_CAP,
    ensures
        reduced(v, message).0.notifications.len() <= NOTIF_CAP,
{
    reveal(logged);
    reveal(bannered);
    reveal(dispatched);
    reveal(toggled);
    reveal(after_event);
    reveal(pairing_finished);
    reveal(plugins_loaded);
    reveal(clipboard_acknowledged);
    reveal(file_queued);
    reveal(clipboard_sent);
    reveal(device_selected);
    if let MessageView::DismissPressed(id) = message {
        v.notifications.lemma_filter_len(|r: NotifRow<Seq<char>>| r.id != id);
    }
}

/// Whether device ids are unique, and the selection's index and id speak of
/// one device, or there is no selection.
#[verifier::opaque]
pub open spec fn consistent(
    devices: Seq<DeviceCard<Seq<char>>>,
    selected: Option<int>,
    selected_id: Option<Seq<char>>,
) -> bool {
    &&& model::card_ids_unique(devices)
    &&& match selected_id {
        Some(id) => selected is Some && selected == model::card_at(devices, id, 0),
        None => selected is None,
    }
}

proof fn lemma_same_ids(
    a: Seq<DeviceCard<Seq<char>>>,
    b: Seq<DeviceCard<Seq<char>>>,
    id: Seq<char>,
    from: int,
)
    requires
        a.len() <= b.len(),
        forall|k: int| 0 <= k < a.len() ==> (#[trigger] a[k]).id == b[k].id,
        0 <= from,
        a.len() == b.len() || model::card_at(a, id, from) is Some,
    ensures
        model::card_at(a, id, from) == model::card_at(b, id, from),
    decreases a.len() - from,
{
    if from < a.len() && a[from].id != id {
        lemma_same_ids(a, b, id, from + 1);
    }
}

proof fn lemma_change_is_consistent(
    v: AppView,
    id: Seq<char>,
    change: spec_fn(DeviceCard<Seq<char>>) -> DeviceCard<Seq<char>>,
)
    requires
        forall|c: DeviceCard<Seq<char>>| (#[trigger] change(c)).id == c.id,
        consistent(v.devices, v.selected, v.selected_id),
    ensures
        consistent(changed_card(v.devices, id, change), v.selected, v.selected_id),
{
    reveal(consistent);
    let rows = v.devices;
    model::lemma_card_at(rows, id, 0);
    let after = changed_card(rows, id, change);
    assert forall|k: int| 0 <= k < rows.len() implies (#[trigger] rows[k]).id == after[k].id by {}
    assert forall|i: int, j: int| 0 <= i < j < after.len() implies #[trigger] after[i].id
        != #[trigger] after[j].id by {
        assert(rows[i].id == after[i].id);
        assert(rows[j].id == after[j].id);
    }
    if let Some(o) = v.selected_id {
        lemma_same_ids(rows, after, o, 0);
    }
}

proof fn lemma_select_is_consistent(v: AppView, index: int)
    requires
        consistent(v.devices, v.selected, v.selected_id),
        0 <= index < v.devices.len(),
    ensures
        consistent(v.devices, Some(index), Some(v.devices[index].id)),
{
    reveal(consistent);
    model::lemma_card_at(v.devices, v.devices[index].id, 0);
}

proof fn lemma_found_is_consistent(v: AppView, id: Seq<char>, name: Seq<char>)
    requires
        consistent(v.devices, v.selected, v.selected_id),
    ensures
        consistent(
            device_found(v, id, name).devices,
            device_found(v, id, name).selected,
            device_found(v, id, name).selected_id,
        ),
{
    reveal(consistent);
    let other = v.selected_id;
    model::lemma_card_at(v.devices, id, 0);
    let after = device_found(v, id, name).devices;
    let card = match model::card_at(v.devices, id, 0) {
        Some(i) => DeviceCard { name, ..v.devices[i] },
        None => model::found_card(id, name),
    };
    model::law_card_upsert_keeps_ids_unique(v.devices, card);
    if let Some(o) = other {
        model::lemma_card_at(v.devices, o, 0);
        model::lemma_card_at(after, o, 0);
        assert forall|k: int| 0 <= k < v.devices.len() implies (#[trigger] v.devices[k]).id
            == after[k].id by {}
        if model::card_at(v.devices, o, 0) is Some || model::card_at(v.devices, id, 0) is Some {
            lemma_same_ids(v.devices, after, o, 0);
        }
    }
}

proof fn lemma_lost_is_consistent(v: AppView, id: Seq<char>)
    requires
        consistent(v.devices, v.selected, v.selected_id),
    ensures
        consistent(
            device_lost(v, id).devices,
            device_lost(v, id).selected,
            device_lost(v, id).selected_id,
        ),
{
    reveal(logged);
    reveal(consistent);
    let other = v.selected_id;
    model::lemma_card_at(v.devices, id, 0);
    let after = device_lost(v, id).devices;
    assert forall|i: int, j: int| 0 <= i < j < after.len() implies #[trigger] after[i].id
        != #[trigger] after[j].id by {
        if let Some(gone) = model::card_at(v.devices, id, 0) {
            let old_i = if i < gone { i } else { i + 1 };
            let old_j = if j < gone { j } else { j + 1 };
            assert(after[i] == v.devices[old_i]);
            assert(after[j] == v.devices[old_j]);
        }
    }
    if let Some(o) = other {
        model::lemma_card_at(v.devices, o, 0);
        model::lemma_card_at(after, o, 0);
        if o != id {
            let at = model::card_at(v.devices, o, 0)->0;
            match model::card_at(v.devices, id, 0) {
                Some(gone) => {
                    let new_at = if at < gone { at } else { at - 1 };
                    assert(after[new_at] == v.devices[at]);
                },
                None => {},
            }
        }
    }
}

/// Whether the selection's index and id speak of one device, or there is no
/// selection.
pub open spec fn in_step(
    devices: Seq<DeviceCard<Seq<char>>>,
    selected: Option<int>,
    selected_id: Option<Seq<char>>,
) -> bool {
    match (selected, selected_id) {
        (Some(i), Some(id)) => 0 <= i < devices.len() && devices[i].id == id,
        (None, None) => true,
        _ => false,
    }
}

proof fn lemma_change_stays_in_step(
    v: AppView,
    id: Seq<char>,
    change: spec_fn(DeviceCard<Seq<char>>) -> DeviceCard<Seq<char>>,
)
    requires
        forall|c: DeviceCard<Seq<char>>| (#[trigger] change(c)).id == c.id,
        in_step(v.devices, v.selected, v.selected_id),
    ensures
        in_step(changed_card(v.devices, id, change), v.selected, v.selected_id),
{
    model::lemma_card_at(v.devices, id, 0);
}

/// The selection's index is in range and stays in step with its id, whatever
/// message comes.
#[verifier::rlimit(40)]
pub proof fn law_selection_stays_in_step(v: AppView, message: MessageView)
    requires
        in_step(v.devices, v.selected, v.selected_id),
    ensures
        in_step(
            reduced(v, message).0.devices,
            reduced(v, message).0.selected,
            reduced(v, message).0.selected_id,
        ),
{
    reveal(logged);
    reveal(bannered);
    reveal(dispatched);
    reveal(toggled);
    reveal(after_event);
    reveal(pairing_finished);
    reveal(plugins_loaded);
    reveal(clipboard_acknowledged);
    reveal(file_queued);
    reveal(clipboard_sent);
    reveal(device_selected);
    match message {
        MessageView::PairPressed(id) => {
            lemma_change_stays_in_step(v, id, relabelled("pairing"@));
        },
        MessageView::UnpairPressed(id) => {
            lemma_change_stays_in_step(v, id, relabelled("unpairing"@));
        },
        MessageView::Paired(result) => {
            if let Some(id) = v.pair_target {
                lemma_change_stays_in_step(v, id, settled(false));
                lemma_change_stays_in_step(v, id, reverted(false));
            }
        },
        MessageView::Unpaired(result) => {
            if let Some(id) = v.unpair_target {
                lemma_change_stays_in_step(v, id, settled(true));
                lemma_change_stays_in_step(v, id, reverted(true));
            }
        },
        MessageView::Event(ServerEvent::DeviceFound { id, name }) => {
            model::lemma_card_at(v.devices, id, 0);
        },
        MessageView::Event(ServerEvent::DeviceLost { id }) => {
            model::lemma_card_at(v.devices, id, 0);
            if let Some(o) = v.selected_id {
                if o != id {
                    let after = device_lost(v, id).devices;
                    let at = v.selected->0;
                    match model::card_at(v.devices, id, 0) {
                        Some(gone) => {
                            let new_at = if at < gone { at } else { at - 1 };
                            assert(after[new_at] == v.devices[at]);
                        },
                        None => {},
                    }
                    model::lemma_card_at(after, o, 0);
                }
            }
        },
        MessageView::Event(ServerEvent::DeviceStateChanged { id, state }) => {
            lemma_change_stays_in_step(
                v,
                id,
                |c: DeviceCard<Seq<char>>| model::in_state(c, state),
            );
        },
        _ => {},
    }
}

/// As long as no loaded list gives an id twice, device ids stay unique, and
/// the selection is the device that its id finds, whatever message comes.
#[verifier::rlimit(40)]
pub proof fn law_device_ids_stay_unique(v: AppView, message: MessageView)
    requires
        consistent(v.devices, v.selected, v.selected_id),
        message matches MessageView::DevicesLoaded(cards) ==> model::card_ids_unique(cards),
    ensures
        consistent(
            reduced(v, message).0.devices,
            reduced(v, message).0.selected,
            reduced(v, message).0.selected_id,
        ),
{
    reveal(logged);
    reveal(bannered);
    reveal(dispatched);
    reveal(toggled);
    reveal(after_event);
    reveal(pairing_finished);
    reveal(plugins_loaded);
    reveal(clipboard_acknowledged);
    reveal(file_queued);
    reveal(clipboard_sent);
    reveal(device_selected);
    match message {
        MessageView::DevicesLoaded(cards) => {
            reveal(consistent);
        },
        MessageView::PairPressed(id) => {
            lemma_change_is_consistent(v, id, relabelled("pairing"@));
        },
        MessageView::UnpairPressed(id) => {
            lemma_change_is_consistent(v, id, relabelled("unpairing"@));
        },
        MessageView::Paired(result) => {
            if let Some(id) = v.pair_target {
                lemma_change_is_consistent(v, id, settled(false));
                lemma_change_is_consistent(v, id, reverted(false));
            }
        },
        MessageView::Unpaired(result) => {
            if let Some(id) = v.unpair_target {
                lemma_change_is_consistent(v, id, settled(true));
                lemma_change_is_consistent(v, id, reverted(true));
            }
        },
        MessageView::DeviceSelected(index) => {
            if index < v.devices.len() {
                lemma_select_is_consistent(v, index as int);
            }
        },
        MessageView::Event(ServerEvent::DeviceFound { id, name }) => {
            lemma_found_is_consistent(v, id, name);
        },
        MessageView::Event(ServerEvent::DeviceLost { id }) => {
            lemma_lost_is_consistent(v, id);
        },
        MessageView::Event(ServerEvent::DeviceStateChanged { id, state }) => {
            lemma_change_is_consistent(
                v,
                id,
                |c: DeviceCard<Seq<char>>| model::in_state(c, state),
            );
        },
        _ => {},
    }
}

/// Nothing is selected, and no device is there, at the start.
pub proof fn law_start_is_consistent(toggles: Map<Seq<char>, bool>)
    ensures
        in_step(fresh(toggles).devices, fresh(toggles).selected, fresh(toggles).selected_id),
        consistent(fresh(toggles).devices, fresh(toggles).selected, fresh(toggles).selected_id),
{
    reveal(consistent);
}

/// Without a driver nothing is sent, and the state of the connection does not
/// come back by itself.
pub proof fn law_nothing_is_sent_offline(v: AppView, message: MessageView, i: int)
    requires
        !v.bridge,
        0 <= i < reduced(v, message).1.len(),
    ensures
        reduced(v, message).1[i] !is Send,
{
    reveal(dispatched);
    reveal(toggled);
    reveal(file_queued);
    reveal(clipboard_sent);
    reveal(device_selected);
}

/// A malformed toggle key neither stores nor sends anything.
pub proof fn law_malformed_keys_are_refused(v: AppView, key: Seq<char>, enabled: bool)
    requires
        model::key_parts(key) is None,
    ensures
        reduced(v, MessageView::ToggleSavedPlugin(key, enabled)).1.len() == 0,
        reduced(v, MessageView::ToggleSavedPlugin(key, enabled)).0.plugin_toggles
            == v.plugin_toggles,
        reduced(v, MessageView::ToggleSavedPlugin(key, enabled)).0.banner == Some(
            "malformed plugin toggle key: "@ + key,
        ),
{
    reveal(logged);
    reveal(bannered);
}

/// A failed attempt to pair with a device that was merely found leaves the
/// devices as they were.
pub proof fn law_failed_pairing_is_taken_back(v: AppView, id: Seq<char>, error: Seq<char>)
    requires
        model::card_at(v.devices, id, 0) matches Some(i) ==> v.devices[i].state == "found"@,
    ensures
        ({
            let pressed = reduced(v, MessageView::PairPressed(id)).0;
            let failed = reduced(pressed, MessageView::Paired(Err(error))).0;
            failed.devices == v.devices && failed.pair_target is None && failed.banner == Some(
                "pairing failed: "@ + error,
            )
        }),
{
    reveal(logged);
    reveal(bannered);
    reveal(dispatched);
    reveal(pairing_finished);
    model::lemma_card_at(v.devices, id, 0);
    let pressed = reduced(v, MessageView::PairPressed(id)).0;
    if let Some(i) = model::card_at(v.devices, id, 0) {
        assert forall|k: int| 0 <= k < v.devices.len() implies (#[trigger] v.devices[k]).id
            == pressed.devices[k].id by {}
        lemma_same_ids(v.devices, pressed.devices, id, 0);
        let failed = reduced(pressed, MessageView::Paired(Err(error))).0;
        assert(failed.devices =~= v.devices);
    }
}

/// A toggle that was made for a device shows in its plugin rows, whatever the
/// daemon reports.
pub proof fn law_stored_toggles_win(
    v: AppView,
    device_id: Seq<char>,
    plugin: Seq<char>,
    enabled: bool,
    rows: Seq<PluginRow<Seq<char>>>,
    i: int,
)
    requires
        selection(v) == Some(device_id),
        0 <= i < rows.len(),
        rows[i].name == plugin,
    ensures
        ({
            let changed = reduced(v, MessageView::TogglePlugin(plugin, enabled)).0;
            let loaded = reduced(changed, MessageView::PluginsLoaded(rows)).0;
            loaded.plugins[i].enabled == enabled
        }),
{
    reveal(logged);
    reveal(bannered);
    reveal(dispatched);
    reveal(toggled);
    reveal(plugins_loaded);
}

/// A new log line comes last and leaves the lines before it in order; a full
/// log loses its first line. Nothing else changes.
pub proof fn law_the_newest_line_comes_last(v: AppView, line: Seq<char>)
    ensures
        logged(v, line).logs.len() > 0,
        logged(v, line).logs.last() == line,
        v.logs.len() < LOG_CAP ==> logged(v, line).logs.drop_last() == v.logs,
        v.logs.len() >= LOG_CAP ==> logged(v, line).logs.drop_last() == v.logs.drop_first(),
        (AppView { logs: v.logs, ..logged(v, line) }) == v,
{
    reveal(logged);
    assert(v.logs.push(line).drop_last() =~= v.logs);
    if v.logs.len() > 0 {
        assert(v.logs.drop_first().push(line).drop_last() =~= v.logs.drop_first());
    }
}

/// An error is shown in the banner and kept in the log.
pub proof fn law_errors_are_shown_and_logged(v: AppView, text: Seq<char>)
    ensures
        bannered(v, text).banner == Some(text),
        bannered(v, text).logs.len() > 0,
        bannered(v, text).logs.last().skip("[error] "@.len() as int) == text,
        (AppView { logs: v.logs, banner: v.banner, ..bannered(v, text) }) == v,
{
    reveal(logged);
    reveal(bannered);
    assert(("[error] "@ + text).skip("[error] "@.len() as int) =~= text);
}

/// A command that cannot be delivered is reported, at the clipboard or in the
/// banner; only a dismissal is dropped in silence. Whatever is shown of the
/// devices and the rest stays.
pub proof fn law_undelivered_commands_are_reported(v: AppView, command: BridgeIn<Seq<char>>)
    ensures
        command is DismissNotification ==> undelivered(v, command) == v,
        command is ClipboardSet ==> undelivered(v, command).clipboard_status == Some(
            "not connected"@,
        ) && undelivered(v, command).banner == v.banner,
        command !is DismissNotification && command !is ClipboardSet ==> undelivered(
            v,
            command,
        ).banner == Some("not connected"@) && undelivered(v, command).clipboard_status
            == v.clipboard_status,
        undelivered(v, command).devices == v.devices,
        undelivered(v, command).notifications == v.notifications,
        undelivered(v, command).transfers == v.transfers,
{
    reveal(logged);
    reveal(bannered);
}

/// Pressing the button of a device asks the daemon for just that device, and
/// shows the request in flight on its card alone.
pub proof fn law_pairing_is_requested_as_pressed(v: AppView, id: Seq<char>, k: int)
    requires
        v.bridge,
        model::card_ids_unique(v.devices),
        0 <= k < v.devices.len(),
    ensures
        reduced(v, MessageView::PairPressed(id)).1 == seq![Effect::Send(BridgeIn::Pair(id))],
        reduced(v, MessageView::PairPressed(id)).0.pair_target == Some(id),
        reduced(v, MessageView::PairPressed(id)).0.unpair_target == v.unpair_target,
        reduced(v, MessageView::UnpairPressed(id)).1 == seq![Effect::Send(BridgeIn::Unpair(id))],
        reduced(v, MessageView::UnpairPressed(id)).0.unpair_target == Some(id),
        reduced(v, MessageView::UnpairPressed(id)).0.pair_target == v.pair_target,
        v.devices[k].id != id ==> reduced(v, MessageView::PairPressed(id)).0.devices[k]
            == v.devices[k] && reduced(v, MessageView::UnpairPressed(id)).0.devices[k]
            == v.devices[k],
        v.devices[k].id == id ==> {
            &&& reduced(v, MessageView::PairPressed(id)).0.devices[k].state == "pairing"@
            &&& reduced(v, MessageView::UnpairPressed(id)).0.devices[k].state == "unpairing"@
            &&& reduced(v, MessageView::PairPressed(id)).0.devices[k].paired
                == v.devices[k].paired
            &&& reduced(v, MessageView::UnpairPressed(id)).0.devices[k].paired
                == v.devices[k].paired
        },
{
    reveal(dispatched);
    model::lemma_card_at(v.devices, id, 0);
    if let Some(i) = model::card_at(v.devices, id, 0) {
        if v.devices[k].id == id && i != k {
            assert(false);
        }
    }
}

/// An acknowledged pairing shows the device that was asked for as paired, an
/// acknowledged revocation as not paired; no other card changes, and the
/// request is no longer in flight.
pub proof fn law_acknowledged_pairing_is_shown(v: AppView, id: Seq<char>, k: int)
    requires
        model::card_ids_unique(v.devices),
        0 <= k < v.devices.len(),
    ensures
        v.pair_target == Some(id) ==> ({
            let after = reduced(v, MessageView::Paired(Ok(()))).0;
            &&& after.pair_target is None
            &&& after.unpair_target == v.unpair_target
            &&& v.devices[k].id == id ==> after.devices[k].paired && after.devices[k].state
                == "paired"@
            &&& v.devices[k].id != id ==> after.devices[k] == v.devices[k]
            &&& after.banner == v.banner
        }),
        v.unpair_target == Some(id) ==> ({
            let after = reduced(v, MessageView::Unpaired(Ok(()))).0;
            &&& after.unpair_target is None
            &&& after.pair_target == v.pair_target
            &&& v.devices[k].id == id ==> !after.devices[k].paired && after.devices[k].state
                == "found"@
            &&& v.devices[k].id != id ==> after.devices[k] == v.devices[k]
            &&& after.banner == v.banner
        }),
{
    reveal(logged);
    reveal(pairing_finished);
    model::lemma_card_at(v.devices, id, 0);
    if let Some(i) = model::card_at(v.devices, id, 0) {
        if v.devices[k].id == id && i != k {
            assert(false);
        }
    }
}

/// A refused pairing is reported in the banner and pairs nothing.
pub proof fn law_refused_pairing_pairs_nothing(v: AppView, error: Seq<char>, k: int)
    requires
        0 <= k < v.devices.len(),
    ensures
        reduced(v, MessageView::Paired(Err(error))).0.devices[k].paired == v.devices[k].paired,
        reduced(v, MessageView::Unpaired(Err(error))).0.devices[k].paired == v.devices[k].paired,
        reduced(v, MessageView::Paired(Err(error))).0.banner is Some,
        reduced(v, MessageView::Unpaired(Err(error))).0.banner is Some,
        reduced(v, MessageView::Paired(Err(error))).0.pair_target is None,
        reduced(v, MessageView::Unpaired(Err(error))).0.unpair_target is None,
{
    reveal(logged);
    reveal(bannered);
    reveal(pairing_finished);
    if let Some(id) = v.pair_target {
        model::lemma_card_at(v.devices, id, 0);
    }
    if let Some(id) = v.unpair_target {
        model::lemma_card_at(v.devices, id, 0);
    }
}

/// An announced device is shown under its new name; what else is known of it
/// is kept, and so is every other card.
pub proof fn law_announced_devices_are_shown(v: AppView, id: Seq<char>, name: Seq<char>)
    ensures
        ({
            let after = reduced(v, MessageView::Event(ServerEvent::DeviceFound { id, name })).0;
            &&& after.devices.len() >= v.devices.len()
            &&& exists|k: int|
                0 <= k < after.devices.len() && (#[trigger] after.devices[k]).id == id
                    && after.devices[k].name == name && (k < v.devices.len() ==> v.devices[k].id
                    == id && after.devices[k].paired == v.devices[k].paired
                    && after.devices[k].state == v.devices[k].state && after.devices[k].kind
                    == v.devices[k].kind) && (k >= v.devices.len() ==> !after.devices[k].paired)
            &&& forall|k: int|
                0 <= k < v.devices.len() && v.devices[k].id != id ==> (#[trigger] after.devices[k])
                    == v.devices[k]
            &&& after.selected == v.selected
            &&& after.transfers == v.transfers
            &&& after.notifications == v.notifications
        }),
{
    reveal(after_event);
    model::lemma_card_at(v.devices, id, 0);
    let after = reduced(v, MessageView::Event(ServerEvent::DeviceFound { id, name })).0;
    match model::card_at(v.devices, id, 0) {
        Some(i) => {
            assert(after.devices[i].id == id);
        },
        None => {
            let k = v.devices.len() as int;
            assert(after.devices[k].id == id);
        },
    }
}

/// A lost device loses its card, what was selected of it and the requests in
/// flight for it; those of other devices stay.
pub proof fn law_lost_devices_disappear(v: AppView, id: Seq<char>, k: int)
    requires
        model::card_ids_unique(v.devices),
        0 <= k < v.devices.len(),
    ensures
        ({
            let after = reduced(v, MessageView::Event(ServerEvent::DeviceLost { id })).0;
            &&& forall|n: int|
                0 <= n < after.devices.len() ==> (#[trigger] after.devices[n]).id != id
            &&& v.devices[k].id != id ==> after.devices.contains(v.devices[k])
            &&& v.selected_id == Some(id) ==> after.selected_id is None && after.selected is None
                && after.plugins.len() == 0
            &&& v.selected_id != Some(id) ==> after.selected_id == v.selected_id && after.plugins
                == v.plugins
            &&& after.pair_target == if v.pair_target == Some(id) {
                None
            } else {
                v.pair_target
            }
            &&& after.unpair_target == if v.unpair_target == Some(id) {
                None
            } else {
                v.unpair_target
            }
        }),
{
    reveal(after_event);
    reveal(logged);
    model::lemma_card_at(v.devices, id, 0);
    let after = reduced(v, MessageView::Event(ServerEvent::DeviceLost { id })).0;
    match model::card_at(v.devices, id, 0) {
        Some(i) => {
            if v.devices[k].id != id {
                let n = if k < i {
                    k
                } else {
                    k - 1
                };
                assert(after.devices[n] == v.devices[k]);
            }
        },
        None => {
            assert(after.devices[k] == v.devices[k]);
        },
    }
}

/// A change of state shows on the card of its device alone.
pub proof fn law_state_changes_concern_one_device(
    v: AppView,
    id: Seq<char>,
    state: Seq<char>,
    k: int,
)
    requires
        model::card_ids_unique(v.devices),
        0 <= k < v.devices.len(),
    ensures
        ({
            let after = reduced(
                v,
                MessageView::Event(ServerEvent::DeviceStateChanged { id, state }),
            ).0;
            &&& v.devices[k].id == id ==> after.devices[k].state == state && (
            after.devices[k].paired <==> state == "paired"@)
            &&& v.devices[k].id == id ==> after.devices[k].name == v.devices[k].name
            &&& v.devices[k].id != id ==> after.devices[k] == v.devices[k]
            &&& after.devices.len() == v.devices.len()
            &&& after.logs == v.logs
        }),
{
    reveal(after_event);
    model::lemma_card_at(v.devices, id, 0);
    if let Some(i) = model::card_at(v.devices, id, 0) {
        if v.devices[k].id == id && i != k {
            assert(false);
        }
    }
}

/// An announced transfer is shown from its beginning, under the name and with
/// the size that were announced.
pub proof fn law_announced_transfers_are_shown(
    v: AppView,
    event: ServerEvent<Seq<char>>,
)
    requires
        event is TransferAdded,
    ensures
        ({
            let after = reduced(v, MessageView::Event(event)).0;
            exists|k: int|
                0 <= k < after.transfers.len() && (#[trigger] after.transfers[k]).id
                    == event->TransferAdded_id && after.transfers[k].name
                    == event->TransferAdded_file_name && after.transfers[k].done == 0
                    && after.transfers[k].total == event->TransferAdded_total && forall|n: int|
                    0 <= n < v.transfers.len() && n != k ==> #[trigger] v.transfers[n]
                        == after.transfers[n]
        }),
{
    reveal(after_event);
    reveal(logged);
    let id = event->TransferAdded_id;
    model::lemma_transfer_at(v.transfers, id, 0);
    let after = reduced(v, MessageView::Event(event)).0;
    let row = TransferRow {
        id,
        name: event->TransferAdded_file_name,
        done: 0,
        total: event->TransferAdded_total,
    };
    match model::transfer_at(v.transfers, id, 0) {
        Some(i) => {
            assert(after.transfers[i] == row);
        },
        None => {
            let i = v.transfers.len() as int;
            assert(after.transfers[i] == row);
        },
    }
}

proof fn lemma_failed_transfers_are_gone(rows: Seq<TransferRow<Seq<char>>>, id: Seq<char>, k: int)
    requires
        0 <= k < rows.len(),
    ensures
        rows[k].id != id ==> transfers_without(rows, id).contains(rows[k]),
        forall|n: int|
            0 <= n < transfers_without(rows, id).len() ==> (#[trigger] transfers_without(rows, id)[n]).id != id,
{
    broadcast use vstd::seq_lib::group_filter_ensures;

}

/// Progress shows on the row of its transfer alone, which is made where it is
/// missing; a finished transfer shows all of its bytes, and a failed one is
/// taken off.
pub proof fn law_transfers_follow_their_events(
    v: AppView,
    event: ServerEvent<Seq<char>>,
    reason: Seq<char>,
    k: int,
)
    requires
        event is TransferProgress,
        model::transfer_ids_unique(v.transfers),
        0 <= k < v.transfers.len(),
    ensures
        ({
            let id = event->TransferProgress_id;
            let reported = reduced(v, MessageView::Event(event)).0;
            let finished = reduced(v, MessageView::Event(ServerEvent::TransferFinished { id })).0;
            let failed = reduced(
                v,
                MessageView::Event(ServerEvent::TransferFailed { id, reason }),
            ).0;
            &&& v.transfers[k].id == id ==> reported.transfers[k].done == event->bytes_done
                && reported.transfers[k].total == event->bytes_total && reported.transfers[k].name
                == v.transfers[k].name
            &&& v.transfers[k].id != id ==> reported.transfers[k] == v.transfers[k]
                && finished.transfers[k] == v.transfers[k] && failed.transfers.contains(
                v.transfers[k],
            )
            &&& v.transfers[k].id == id ==> finished.transfers[k].done == v.transfers[k].total
            &&& finished.transfers.len() == v.transfers.len()
            &&& forall|n: int|
                0 <= n < failed.transfers.len() ==> (#[trigger] failed.transfers[n]).id != id
            &&& exists|n: int|
                0 <= n < reported.transfers.len() && (#[trigger] reported.transfers[n]).id == id
                    && reported.transfers[n].done == event->bytes_done
        }),
{
    reveal(after_event);
    reveal(logged);
    let id = event->TransferProgress_id;
    model::lemma_transfer_at(v.transfers, id, 0);
    let rows = with_placeholder(v.transfers, id);
    model::lemma_transfer_at(rows, id, 0);
    let reported = reduced(v, MessageView::Event(event)).0;
    let failed = reduced(v, MessageView::Event(ServerEvent::TransferFailed { id, reason })).0;
    assert forall|n: int| 0 <= n < v.transfers.len() implies rows[n] == v.transfers[n] by {}
    if model::transfer_at(v.transfers, id, 0) is None {
        assert(rows[v.transfers.len() as int].id == id);
    }
    assert(model::transfer_at(rows, id, 0) is Some);
    let i = model::transfer_at(rows, id, 0)->0;
    assert(reported.transfers[i].id == id);
    if v.transfers[k].id == id && i != k {
        assert(rows[i].id == id);
    }
    assert(failed.transfers == transfers_without(v.transfers, id));
    lemma_failed_transfers_are_gone(v.transfers, id, k);
}

/// A notification is shown first, as it was received, in front of the ones
/// before it; too many lose the oldest.
pub proof fn law_newest_notification_comes_first(v: AppView, event: ServerEvent<Seq<char>>)
    requires
        event is NotificationReceived,
    ensures
        ({
            let after = reduced(v, MessageView::Event(event)).0;
            &&& after.notifications.len() > 0
            &&& after.notifications[0].id == event->NotificationReceived_id
            &&& after.notifications[0].app == event->NotificationReceived_app
            &&& after.notifications[0].title == event->NotificationReceived_title
            &&& after.notifications[0].body == event->NotificationReceived_body
            &&& forall|i: int|
                1 <= i < after.notifications.len() ==> #[trigger] after.notifications[i]
                    == v.notifications[i - 1]
            &&& v.notifications.len() < NOTIF_CAP ==> after.notifications.len()
                == v.notifications.len() + 1
            &&& v.notifications.len() >= NOTIF_CAP ==> after.notifications.len()
                == v.notifications.len()
        }),
{
    reveal(after_event);
}

proof fn lemma_dismissed_rows_are_gone(rows: Seq<NotifRow<Seq<char>>>, id: Seq<char>, k: int)
    requires
        0 <= k < rows.len(),
    ensures
        rows[k].id != id ==> notifications_without(rows, id).contains(rows[k]),
        forall|n: int|
            0 <= n < notifications_without(rows, id).len() ==> (#[trigger] notifications_without(rows, id)[n]).id != id,
{
    broadcast use vstd::seq_lib::group_filter_ensures;

}

/// A dismissed notification is asked to go and is no longer shown; the others
/// are.
pub proof fn law_dismissed_notifications_disappear(v: AppView, id: Seq<char>, k: int)
    requires
        v.bridge,
        0 <= k < v.notifications.len(),
    ensures
        ({
            let (after, effects) = reduced(v, MessageView::DismissPressed(id));
            &&& effects == seq![Effect::Send(BridgeIn::DismissNotification(id))]
            &&& forall|n: int|
                0 <= n < after.notifications.len() ==> (#[trigger] after.notifications[n]).id != id
            &&& v.notifications[k].id != id ==> after.notifications.contains(v.notifications[k])
        }),
{
    reveal(dispatched);
    let after = reduced(v, MessageView::DismissPressed(id)).0;
    assert(after.notifications == notifications_without(v.notifications, id));
    lemma_dismissed_rows_are_gone(v.notifications, id, k);
}

/// A clicked card is the selected one: its device is remembered, and the
/// daemon is asked for the plugins of that device.
pub proof fn law_clicked_cards_are_selected(v: AppView, index: usize)
    requires
        v.bridge,
    ensures
        index < v.devices.len() ==> ({
            let (after, effects) = reduced(v, MessageView::DeviceSelected(index));
            let id = v.devices[index as int].id;
            &&& selection(after) == Some(id)
            &&& after.selected_id == Some(id)
            &&& after.plugins.len() == 0
            &&& after.devices == v.devices
            &&& effects == seq![Effect::Send(BridgeIn::ListPlugins(id))]
        }),
        index >= v.devices.len() ==> reduced(v, MessageView::DeviceSelected(index)) == (
            v,
            Seq::<Effect<Seq<char>>>::empty(),
        ),
{
    reveal(dispatched);
    reveal(device_selected);
}

/// A switched plugin shows the new setting in its row, is stored for the
/// selected device, saved, and then sent to the daemon.
pub proof fn law_switched_plugins_are_stored_and_sent(
    v: AppView,
    plugin: Seq<char>,
    enabled: bool,
    k: int,
)
    requires
        v.bridge,
        selection(v) is Some,
        0 <= k < v.plugins.len(),
    ensures
        ({
            let device_id = selection(v)->0;
            let (after, effects) = reduced(v, MessageView::TogglePlugin(plugin, enabled));
            &&& effects == seq![
                Effect::SaveToggles,
                Effect::Send(BridgeIn::SetPlugin { device_id, plugin, enabled }),
            ]
            &&& after.plugin_toggles == v.plugin_toggles.insert(
                device_id + ":"@ + plugin,
                enabled,
            )
            &&& v.plugins[k].name != plugin ==> after.plugins[k] == v.plugins[k]
            &&& v.plugins[k].name == plugin ==> exists|n: int|
                0 <= n <= k && (#[trigger] after.plugins[n]).name == plugin
                    && after.plugins[n].enabled == enabled && after.plugins[n].title
                    == v.plugins[n].title
        }),
{
    reveal(toggled);
    lemma_plugin_at(v.plugins, plugin, 0);
    let after = reduced(v, MessageView::TogglePlugin(plugin, enabled)).0;
    if let Some(i) = plugin_at(v.plugins, plugin, 0) {
        assert(after.plugins[i].name == plugin);
    }
}

proof fn lemma_plugin_at(rows: Seq<PluginRow<Seq<char>>>, name: Seq<char>, from: int)
    requires
        0 <= from,
    ensures
        match plugin_at(rows, name, from) {
            Some(i) => from <= i < rows.len() && rows[i].name == name && forall|k: int|
                from <= k < i ==> (#[trigger] rows[k]).name != name,
            None => forall|k: int| from <= k < rows.len() ==> (#[trigger] rows[k]).name != name,
        },
    decreases rows.len() - from,
{
    if from < rows.len() && rows[from].name != name {
        lemma_plugin_at(rows, name, from + 1);
    }
}

/// A toggle in the settings is stored under its own key, and sent for the
/// device and the plugin that the key names.
pub proof fn law_saved_toggles_are_sent_by_key(v: AppView, key: Seq<char>, enabled: bool)
    requires
        v.bridge,
        model::key_parts(key) is Some,
    ensures
        ({
            let (after, effects) = reduced(v, MessageView::ToggleSavedPlugin(key, enabled));
            &&& after.plugin_toggles == v.plugin_toggles.insert(key, enabled)
            &&& after.plugins == v.plugins
            &&& effects.len() == 2
            &&& effects[0] is SaveToggles
            &&& effects[1] matches Effect::Send(BridgeIn::SetPlugin { device_id, plugin, enabled: e })
                && device_id + ":"@ + plugin == key && e == enabled
        }),
{
    reveal(toggled);
    reveal_strlit(":");
    text::law_the_last_position_is_the_last(key, ':');
    let (device_id, plugin) = model::key_parts(key)->0;
    let i = text::last_position(key, ':')->0;
    assert(key[i] == ':');
    assert(device_id + ":"@ + plugin =~= key);
}

/// A file is sent to the selected device by its path without the white space
/// round it; without a device or a path it is not sent but reported.
pub proof fn law_files_are_queued_for_the_selected_device(v: AppView)
    requires
        v.bridge,
    ensures
        ({
            let (after, effects) = reduced(v, MessageView::QueueFilePressed);
            let path = text::trimmed(v.file_path_draft);
            &&& selection(v) is Some && path.len() > 0 ==> after == v && effects == seq![
                Effect::Send(BridgeIn::SendFile { device_id: selection(v)->0, path }),
            ]
            &&& selection(v) is None || path.len() == 0 ==> effects.len() == 0 && after.banner is Some
        }),
{
    reveal(dispatched);
    reveal(file_queued);
    reveal(bannered);
    reveal(logged);
}

/// The clipboard draft is sent without the white space round it; an empty one
/// is not sent. The status shows what became of it.
pub proof fn law_clipboard_drafts_are_sent(v: AppView, error: Seq<char>)
    requires
        v.bridge,
    ensures
        ({
            let (after, effects) = reduced(v, MessageView::SendPressed);
            let draft = text::trimmed(v.clipboard_draft);
            &&& draft.len() > 0 ==> effects == seq![Effect::Send(BridgeIn::ClipboardSet(draft))]
                && after.clipboard_status == Some("sending"@)
            &&& draft.len() == 0 ==> effects.len() == 0 && after.clipboard_status == Some(
                "nothing to send"@,
            )
            &&& after.clipboard_draft == v.clipboard_draft
            &&& reduced(v, MessageView::ClipboardSet(Ok(()))).0.clipboard_status == Some(
                "copied to daemon"@,
            )
            &&& reduced(v, MessageView::ClipboardSet(Err(error))).0.clipboard_status == Some(
                "error: "@ + error,
            )
        }),
{
    reveal(dispatched);
    reveal(clipboard_sent);
    reveal(clipboard_acknowledged);
    reveal(logged);
}

/// What was loaded is shown as it was loaded, and nothing of another kind
/// changes; new devices drop the selection.
pub proof fn law_loaded_lists_are_shown(
    v: AppView,
    cards: Seq<DeviceCard<Seq<char>>>,
    rows: Seq<PluginRow<Seq<char>>>,
    notices: Seq<NotifRow<Seq<char>>>,
)
    ensures
        ({
            let devices = reduced(v, MessageView::DevicesLoaded(cards)).0;
            let plugins = reduced(v, MessageView::PluginsLoaded(rows)).0;
            let notifications = reduced(v, MessageView::NotificationsLoaded(notices)).0;
            &&& devices.devices == cards
            &&& devices.selected is None
            &&& devices.selected_id is None
            &&& devices.plugins.len() == 0
            &&& devices.notifications == v.notifications
            &&& plugins.devices == v.devices
            &&& plugins.plugins.len() == rows.len()
            &&& forall|i: int|
                0 <= i < rows.len() ==> (#[trigger] plugins.plugins[i]).name == rows[i].name
            &&& v.plugin_toggles.dom() == Set::<Seq<char>>::empty() ==> plugins.plugins == rows
            &&& notifications.notifications == notices
            &&& notifications.devices == v.devices
        }),
{
    reveal(logged);
    reveal(plugins_loaded);
    let plugins = reduced(v, MessageView::PluginsLoaded(rows)).0;
    if v.plugin_toggles.dom() == Set::<Seq<char>>::empty() {
        assert forall|i: int| 0 <= i < rows.len() implies plugins.plugins[i] == rows[i] by {
            if let Some(device_id) = selection(v) {
                assert(!v.plugin_toggles.dom().contains(model::key_of(device_id, rows[i].name)));
            }
        }
        assert(plugins.plugins =~= rows);
    }
}

/// What the user types or picks is kept as it is, and asks nothing of the
/// daemon.
pub proof fn law_inputs_are_kept(v: AppView, input: Seq<char>, tab: Tab, conn: ConnState)
    ensures
        reduced(v, MessageView::PathChanged(input)).0.file_path_draft == input,
        reduced(v, MessageView::PathChanged(input)).0.clipboard_draft == v.clipboard_draft,
        reduced(v, MessageView::ClipboardChanged(input)).0.clipboard_draft == input,
        reduced(v, MessageView::ClipboardChanged(input)).0.file_path_draft == v.file_path_draft,
        reduced(v, MessageView::TabSelected(tab)).0.tab == tab,
        reduced(v, MessageView::IpcStatus(conn)).0.conn == conn,
        conn == ConnState::Connected ==> reduced(v, MessageView::IpcStatus(conn)).0.banner is None,
        conn != ConnState::Connected ==> reduced(v, MessageView::IpcStatus(conn)).0.banner
            == v.banner,
        reduced(v, MessageView::BannerClosed).0.banner is None,
        reduced(v, MessageView::SettingsPressed).0.settings_open != v.settings_open,
        reduced(v, MessageView::BridgeReady).0.bridge,
        reduced(v, MessageView::ConnectionLost(input)).0.banner == Some(input),
        reduced(v, MessageView::PathChanged(input)).1.len() == 0,
        reduced(v, MessageView::ClipboardChanged(input)).1.len() == 0,
        reduced(v, MessageView::TabSelected(tab)).1.len() == 0,
        v.bridge ==> reduced(v, MessageView::RefreshPressed).1 == seq![
            Effect::<Seq<char>>::Send(BridgeIn::RefreshDevices),
        ],
{
    reveal(bannered);
    reveal(logged);
    reveal(dispatched);
}

/// What cannot be carried out is shown in the banner with its reason; what is
/// carried out is not.
pub proof fn law_failures_are_shown(v: AppView, error: Seq<char>)
    ensures
        reduced(v, MessageView::FileQueued(Err(error))).0.banner == Some("send failed: "@ + error),
        reduced(v, MessageView::Dismissed(Err(error))).0.banner == Some(
            "dismiss failed: "@ + error,
        ),
        reduced(v, MessageView::PluginSet(Err(error))).0.banner == Some(
            "plugin change failed: "@ + error,
        ),
        reduced(v, MessageView::FileQueued(Ok(()))).0.banner == v.banner,
        reduced(v, MessageView::Dismissed(Ok(()))).0.banner == v.banner,
        reduced(v, MessageView::PluginSet(Ok(()))).0 == v,
{
    reveal(bannered);
    reveal(logged);
}

/// The greeting tells the version that the daemon offers; a version other
/// than the own one adds a warning to the log.
pub proof fn law_greetings_tell_the_version(v: AppView, version: u32, app: Seq<char>, pid: u32)
    requires
        v.logs.len() + 2 <= LOG_CAP,
    ensures
        ({
            let after = reduced(
                v,
                MessageView::Event(ServerEvent::Hello { version, app, pid }),
            ).0;
            &&& after.daemon_version == Some(text::decimal(version as nat))
            &&& version == IPC_VERSION ==> after.logs.len() == v.logs.len() + 1
            &&& version != IPC_VERSION ==> after.logs.len() == v.logs.len() + 2
            &&& after.devices == v.devices
        }),
{
    reveal(after_event);
    reveal(logged);
}

/// A text is shown in full where there is room for it; a longer one keeps its
/// beginning and ends in an ellipsis, within the room there is.
pub proof fn law_long_texts_keep_their_beginning(s: Seq<char>, max_chars: int)
    requires
        max_chars >= 3,
    ensures
        s.len() <= max_chars ==> clamped(s, max_chars) == s,
        s.len() > max_chars ==> clamped(s, max_chars).len() == max_chars,
        s.len() > max_chars ==> clamped(s, max_chars).take(max_chars - 3) == s.take(max_chars - 3),
        s.len() > max_chars ==> forall|i: int|
            max_chars - 3 <= i < max_chars ==> #[trigger] clamped(s, max_chars)[i] == '.',
{
    reveal_strlit("...");
    if s.len() > max_chars {
        assert(clamped(s, max_chars).take(max_chars - 3) =~= s.take(max_chars - 3));
    }
}

} // verus!
