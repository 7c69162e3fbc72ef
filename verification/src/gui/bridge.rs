//! The commands that the front-end sends to the daemon, and the messages that
//! its answers become.
use super::app;
use super::app::Message;
use super::model;
use super::model::ConnState;
use crate::ipc::proto;
use crate::ipc::{Error, Request, Response};
use crate::json;
use crate::json::{Json, JsonView};
use crate::text;
use vstd::prelude::*;

verus! {

/// Seconds to wait before reconnecting after a lost connection.
pub const RECONNECT_DELAY: u64 = 5;

/// Commands the application sends into the driver of the connection; `S` is
/// the type of their texts.
#[derive(Debug, PartialEq, Eq)]
pub enum BridgeIn<S = String> {
    /// Re-fetch the device list from the daemon.
    RefreshDevices,
    /// Fetch the plugin list for one device.
    ListPlugins(S),
    /// Enable or disable one plugin on one device.
    SetPlugin {
        /// Target device identifier.
        device_id: S,
        /// Plugin identifier.
        plugin: S,
        /// Desired enabled state.
        enabled: bool,
    },
    /// Start pairing with a device.
    Pair(S),
    /// Revoke the pairing of a device.
    Unpair(S),
    /// Queue a local file for transfer to a device.
    SendFile {
        /// Target device identifier.
        device_id: S,
        /// Absolute path of the local file.
        path: S,
    },
    /// Dismiss one mirrored notification.
    DismissNotification(S),
    /// Overwrite the daemon's clipboard text.
    ClipboardSet(S),
}

impl View for BridgeIn<String> {
    type V = BridgeIn<Seq<char>>;

    open spec fn view(&self) -> BridgeIn<Seq<char>> {
        match self {
            BridgeIn::RefreshDevices => BridgeIn::RefreshDevices,
            BridgeIn::ListPlugins(id) => BridgeIn::ListPlugins(id@),
            BridgeIn::SetPlugin { device_id, plugin, enabled } => BridgeIn::SetPlugin {
                device_id: device_id@,
                plugin: plugin@,
                enabled: *enabled,
            },
            BridgeIn::Pair(id) => BridgeIn::Pair(id@),
            BridgeIn::Unpair(id) => BridgeIn::Unpair(id@),
            BridgeIn::SendFile { device_id, path } => BridgeIn::SendFile {
                device_id: device_id@,
                path: path@,
            },
            BridgeIn::DismissNotification(id) => BridgeIn::DismissNotification(id@),
            BridgeIn::ClipboardSet(text) => BridgeIn::ClipboardSet(text@),
        }
    }
}

/// The requests that a command stands for, in order. Setting a plugin is
/// followed by a fresh list, so that the front-end shows what the daemon
/// stored.
pub open spec fn requests_for(command: BridgeIn<Seq<char>>) -> Seq<Request<Seq<char>>> {
    match command {
        BridgeIn::RefreshDevices => seq![Request::DeviceList],
        BridgeIn::ListPlugins(device_id) => seq![Request::PluginList { device_id }],
        BridgeIn::SetPlugin { device_id, plugin, enabled } => seq![
            Request::PluginSetEnabled { device_id, plugin, enabled },
            Request::PluginList { device_id },
        ],
        BridgeIn::Pair(device_id) => seq![Request::DevicePair { device_id }],
        BridgeIn::Unpair(device_id) => seq![Request::DeviceUnpair { device_id }],
        BridgeIn::SendFile { device_id, path } => seq![Request::SendFile { device_id, path }],
        BridgeIn::DismissNotification(notification_id) => seq![
            Request::NotificationDismiss { notification_id },
        ],
        BridgeIn::ClipboardSet(text) => seq![Request::ClipboardSet { text }],
    }
}

/// What a list of requests says.
pub open spec fn requests_view(v: Seq<Request>) -> Seq<Request<Seq<char>>> {
    v.map_values(|r: Request| r@)
}

/// The requests to perform for a command, in order.
pub fn requests(command: &BridgeIn) -> (r: Vec<Request>)
    ensures
        requests_view(r@) == requests_for(command@),
{
    let r = match command {
        BridgeIn::RefreshDevices => vec![Request::DeviceList],
        BridgeIn::ListPlugins(id) => vec![Request::PluginList { device_id: id.clone() }],
        BridgeIn::SetPlugin { device_id, plugin, enabled } => vec![
            Request::PluginSetEnabled {
                device_id: device_id.clone(),
                plugin: plugin.clone(),
                enabled: *enabled,
            },
            Request::PluginList { device_id: device_id.clone() },
        ],
        BridgeIn::Pair(id) => vec![Request::DevicePair { device_id: id.clone() }],
        BridgeIn::Unpair(id) => vec![Request::DeviceUnpair { device_id: id.clone() }],
        BridgeIn::SendFile { device_id, path } => vec![
            Request::SendFile { device_id: device_id.clone(), path: path.clone() },
        ],
        BridgeIn::DismissNotification(id) => vec![
            Request::NotificationDismiss { notification_id: id.clone() },
        ],
        BridgeIn::ClipboardSet(text) => vec![Request::ClipboardSet { text: text.clone() }],
    };
    assert(requests_view(r@) =~= requests_for(command@));
    r
}

/// What the outcome of a request says.
pub open spec fn reply_view(r: Result<Json, String>) -> Result<JsonView, Seq<char>> {
    match r {
        Ok(j) => Ok(j@),
        Err(e) => Err(e@),
    }
}

/// The payload of a response, or the text of its failure.
pub open spec fn payload_of(result: Result<Response, Error>) -> Result<JsonView, Seq<char>> {
    match result {
        Ok(response) => match response@ {
            proto::ResponseView::Success { result } => Ok(result),
            proto::ResponseView::Failure { code, message } => Err(
                "daemon error "@ + text::signed_decimal(code as int) + ": "@ + message,
            ),
        },
        Err(err) => Err(err.text()),
    }
}

/// Collapses the outcome of a request into either the response payload or a
/// human-readable failure text.
pub fn unwrap_response(result: Result<Response, Error>) -> (r: Result<Json, String>)
    ensures
        reply_view(r) == payload_of(result),
{
    match result {
        Ok(Response::Success { result }) => Ok(result),
        Ok(Response::Failure { code, message }) => Err(
            "daemon error ".to_owned().concat(text::signed_text(code as i64).as_str()).concat(
                ": ",
            ).concat(message.as_str()),
        ),
        Err(err) => Err(err.message()),
    }
}

/// The reply without its payload.
pub open spec fn acknowledged(reply: Result<JsonView, Seq<char>>) -> Result<(), Seq<char>> {
    match reply {
        Ok(_) => Ok(()),
        Err(e) => Err(e),
    }
}

fn acknowledge(reply: Result<Json, String>) -> (r: Result<(), String>)
    ensures
        app::outcome_view(r) == acknowledged(reply_view(reply)),
{
    match reply {
        Ok(_) => Ok(()),
        Err(e) => Err(e),
    }
}

/// The message for the reply to the first request of a command.
pub open spec fn answer_to(
    command: BridgeIn<Seq<char>>,
    reply: Result<JsonView, Seq<char>>,
) -> app::MessageView {
    match command {
        BridgeIn::RefreshDevices => match reply {
            Ok(j) => app::MessageView::DevicesLoaded(model::devices_in(model::items_of(j, "devices"@))),
            Err(e) => app::MessageView::LoadFailed("refresh failed: "@ + e),
        },
        BridgeIn::ListPlugins(_) => match reply {
            Ok(j) => app::MessageView::PluginsLoaded(model::plugins_in(model::items_of(j, "plugins"@))),
            Err(e) => app::MessageView::LoadFailed("plugin list failed: "@ + e),
        },
        BridgeIn::SetPlugin { .. } => app::MessageView::PluginSet(acknowledged(reply)),
        BridgeIn::Pair(_) => app::MessageView::Paired(acknowledged(reply)),
        BridgeIn::Unpair(_) => app::MessageView::Unpaired(acknowledged(reply)),
        BridgeIn::SendFile { .. } => app::MessageView::FileQueued(acknowledged(reply)),
        BridgeIn::DismissNotification(_) => app::MessageView::Dismissed(acknowledged(reply)),
        BridgeIn::ClipboardSet(_) => app::MessageView::ClipboardSet(acknowledged(reply)),
    }
}

/// The message for the reply to the first request of a command.
pub fn answer(command: &BridgeIn, reply: Result<Json, String>) -> (r: Message)
    ensures
        r@ == answer_to(command@, reply_view(reply)),
{
    match command {
        BridgeIn::RefreshDevices => match reply {
            Ok(payload) => Message::DevicesLoaded(model::parse_devices(&payload)),
            Err(err) => Message::LoadFailed("refresh failed: ".to_owned().concat(err.as_str())),
        },
        BridgeIn::ListPlugins(_) => match reply {
            Ok(payload) => Message::PluginsLoaded(model::parse_plugins(&payload)),
            Err(err) => Message::LoadFailed("plugin list failed: ".to_owned().concat(err.as_str())),
        },
        BridgeIn::SetPlugin { .. } => Message::PluginSet(acknowledge(reply)),
        BridgeIn::Pair(_) => Message::Paired(acknowledge(reply)),
        BridgeIn::Unpair(_) => Message::Unpaired(acknowledge(reply)),
        BridgeIn::SendFile { .. } => Message::FileQueued(acknowledge(reply)),
        BridgeIn::DismissNotification(_) => Message::Dismissed(acknowledge(reply)),
        BridgeIn::ClipboardSet(_) => Message::ClipboardSet(acknowledge(reply)),
    }
}

/// The message for the fresh plugin list that follows a plugin change; a
/// failure to get it is passed over.
pub open spec fn refreshed(reply: Result<JsonView, Seq<char>>) -> Option<app::MessageView> {
    match reply {
        Ok(j) => Some(
            app::MessageView::PluginsLoaded(model::plugins_in(model::items_of(j, "plugins"@))),
        ),
        Err(_) => None,
    }
}

/// The message for the fresh plugin list that follows a plugin change; a
/// failure to get it is passed over.
pub fn follow_up(reply: Result<Json, String>) -> (r: Option<Message>)
    ensures
        match r {
            Some(m) => refreshed(reply_view(reply)) == Some(m@),
            None => refreshed(reply_view(reply)) is None,
        },
{
    match reply {
        Ok(payload) => Some(Message::PluginsLoaded(model::parse_plugins(&payload))),
        Err(_) => None,
    }
}

/// The messages for the two lists that are loaded once per connection:
/// devices, then notifications.
pub open spec fn snapshot(
    devices: Result<JsonView, Seq<char>>,
    notifications: Result<JsonView, Seq<char>>,
) -> (app::MessageView, app::MessageView) {
    (
        match devices {
            Ok(j) => app::MessageView::DevicesLoaded(
                model::devices_in(model::items_of(j, "devices"@)),
            ),
            Err(e) => app::MessageView::LoadFailed("device list failed: "@ + e),
        },
        match notifications {
            Ok(j) => app::MessageView::NotificationsLoaded(
                model::notifications_in(model::items_of(j, "notifications"@)),
            ),
            Err(e) => app::MessageView::LoadFailed("notification list failed: "@ + e),
        },
    )
}

/// The messages for the two lists that are loaded once per connection:
/// devices, then notifications.
pub fn load_snapshot(devices: Result<Json, String>, notifications: Result<Json, String>) -> (r: (
    Message,
    Message,
))
    ensures
        (r.0@, r.1@) == snapshot(reply_view(devices), reply_view(notifications)),
{
    let first = match devices {
        Ok(payload) => Message::DevicesLoaded(model::parse_devices(&payload)),
        Err(err) => Message::LoadFailed("device list failed: ".to_owned().concat(err.as_str())),
    };
    let second = match notifications {
        Ok(payload) => Message::NotificationsLoaded(model::parse_notifications(&payload)),
        Err(err) => Message::LoadFailed(
            "notification list failed: ".to_owned().concat(err.as_str()),
        ),
    };
    (first, second)
}

/// A point of the connect loop.
#[derive(Debug)]
pub enum Milestone {
    /// A connect attempt begins.
    Attempt,
    /// The daemon could not be reached.
    Unreachable {
        /// The socket that was tried.
        path: String,
        /// The failure.
        error: String,
    },
    /// The connection stands.
    Established,
    /// The connection has no event stream.
    NoEvents,
    /// The connection ended.
    Ended,
}

/// The messages for a point of the connect loop, in order.
pub open spec fn notices_for(milestone: Milestone) -> Seq<app::MessageView> {
    match milestone {
        Milestone::Attempt => seq![app::MessageView::IpcStatus(ConnState::Connecting)],
        Milestone::Unreachable { path, error } => seq![
            app::MessageView::IpcStatus(ConnState::Disconnected),
            app::MessageView::ConnectionLost(
                "daemon unreachable at "@ + path@ + ": "@ + error@ + "; retrying every "@
                    + text::decimal(RECONNECT_DELAY as nat) + "s"@,
            ),
        ],
        Milestone::Established => seq![app::MessageView::IpcStatus(ConnState::Connected)],
        Milestone::NoEvents => seq![
            app::MessageView::ConnectionLost("daemon provided no event stream"@),
        ],
        Milestone::Ended => seq![app::MessageView::IpcStatus(ConnState::Disconnected)],
    }
}

/// Seconds to wait at a point of the connect loop before the next attempt, or
/// `None` where the loop goes on at once.
pub open spec fn pause_at(milestone: Milestone) -> Option<u64> {
    match milestone {
        Milestone::Attempt => None,
        Milestone::Established => None,
        _ => Some(RECONNECT_DELAY),
    }
}

/// Seconds to wait at a point of the connect loop before the next attempt, or
/// `None` where the loop goes on at once.
pub fn pause_after(milestone: &Milestone) -> (r: Option<u64>)
    ensures
        r == pause_at(*milestone),
{
    match milestone {
        Milestone::Attempt => None,
        Milestone::Established => None,
        Milestone::Unreachable { .. } => Some(RECONNECT_DELAY),
        Milestone::NoEvents => Some(RECONNECT_DELAY),
        Milestone::Ended => Some(RECONNECT_DELAY),
    }
}

/// The messages for a point of the connect loop, in order.
pub fn notices(milestone: &Milestone) -> (r: Vec<Message>)
    ensures
        app::messages_view(r@) == notices_for(*milestone),
{
    let r = match milestone {
        Milestone::Attempt => vec![Message::IpcStatus(ConnState::Connecting)],
        Milestone::Unreachable { path, error } => {
            let line = "daemon unreachable at ".to_owned().concat(path.as_str()).concat(
                ": ",
            ).concat(error.as_str()).concat("; retrying every ").concat(
                text::decimal_text(RECONNECT_DELAY as u128).as_str(),
            ).concat("s");
            vec![Message::IpcStatus(ConnState::Disconnected), Message::ConnectionLost(line)]
        },
        Milestone::Established => vec![Message::IpcStatus(ConnState::Connected)],
        Milestone::NoEvents => vec![
            Message::ConnectionLost("daemon provided no event stream".to_owned()),
        ],
        Milestone::Ended => vec![Message::IpcStatus(ConnState::Disconnected)],
    };
    assert(app::messages_view(r@) =~= notices_for(*milestone));
    r
}

/// A command asks the daemon for what it names, with every detail under its
/// own name; only a changed plugin is followed by a second request, for the
/// plugins of the same device.
pub proof fn law_commands_ask_for_what_they_name(command: BridgeIn<Seq<char>>)
    ensures
        ({
            let first = requests_for(command)[0];
            &&& requests_for(command).len() == if command is SetPlugin {
                2nat
            } else {
                1
            }
            &&& command is RefreshDevices <==> first is DeviceList
            &&& command matches BridgeIn::ListPlugins(id) ==> first is PluginList
                && first->PluginList_device_id == id
            &&& command matches BridgeIn::SetPlugin { device_id, plugin, enabled } ==> first
                is PluginSetEnabled && first->PluginSetEnabled_device_id == device_id
                && first->PluginSetEnabled_plugin == plugin && first->PluginSetEnabled_enabled
                == enabled && requests_for(command)[1] is PluginList && requests_for(
                command,
            )[1]->PluginList_device_id == device_id
            &&& command matches BridgeIn::Pair(id) ==> first is DevicePair
                && first->DevicePair_device_id == id
            &&& command matches BridgeIn::Unpair(id) ==> first is DeviceUnpair
                && first->DeviceUnpair_device_id == id
            &&& command matches BridgeIn::SendFile { device_id, path } ==> first is SendFile
                && first->SendFile_device_id == device_id && first->SendFile_path == path
            &&& command matches BridgeIn::DismissNotification(id) ==> first is NotificationDismiss
                && first->NotificationDismiss_notification_id == id
            &&& command matches BridgeIn::ClipboardSet(text) ==> first is ClipboardSet
                && first->ClipboardSet_text == text
        }),
{
}

/// A failure that the daemon reports is told with its code and its message, and
/// a success hands out its payload.
pub proof fn law_failures_are_told_with_their_message(result: Result<Response, Error>)
    ensures
        result is Ok ==> (result->Ok_0@ matches proto::ResponseView::Success { result: j }
            ==> payload_of(result) == Ok::<JsonView, Seq<char>>(j)),
        result is Ok ==> (result->Ok_0@ matches proto::ResponseView::Failure { code, message } ==> {
            &&& payload_of(result) is Err
            &&& payload_of(result)->Err_0.len() >= message.len()
            &&& payload_of(result)->Err_0.skip(payload_of(result)->Err_0.len() - message.len())
                == message
        }),
        result matches Err(e) ==> payload_of(result) == Err::<JsonView, Seq<char>>(e.text()),
{
    if result is Ok {
        if let proto::ResponseView::Failure { code, message } = result->Ok_0@ {
            let front = "daemon error "@ + text::signed_decimal(code as int) + ": "@;
            assert((front + message).skip(front.len() as int) =~= message);
        }
    }
}

/// A granted request shows no failure, and a refused one shows the reason in
/// the banner, or at the clipboard where the clipboard was to be sent.
pub proof fn law_replies_are_shown(
    v: app::AppView,
    command: BridgeIn<Seq<char>>,
    j: JsonView,
    error: Seq<char>,
)
    ensures
        ({
            let granted = app::reduced(v, answer_to(command, Ok(j))).0;
            let refused = app::reduced(v, answer_to(command, Err(error))).0;
            &&& granted.banner == v.banner
            &&& command !is ClipboardSet ==> refused.banner is Some && refused.banner->0.len()
                >= error.len() && refused.banner->0.skip(refused.banner->0.len() - error.len())
                == error
            &&& command is ClipboardSet ==> refused.banner == v.banner && refused.clipboard_status
                == Some("error: "@ + error)
            &&& refused.notifications == v.notifications
            &&& command is RefreshDevices ==> granted.devices == model::devices_in(
                model::items_of(j, "devices"@),
            )
            &&& command is Pair && v.pair_target is Some ==> granted.pair_target is None
                && granted.unpair_target == v.unpair_target
            &&& command is Unpair && v.unpair_target is Some ==> granted.unpair_target is None
                && granted.pair_target == v.pair_target
        }),
{
    reveal(app::logged);
    reveal(app::bannered);
    reveal(app::pairing_finished);
    reveal(app::clipboard_acknowledged);
    reveal(app::plugins_loaded);
    let refused = app::reduced(v, answer_to(command, Err(error))).0;
    if command !is ClipboardSet {
        let shown = refused.banner->0;
        match command {
            BridgeIn::RefreshDevices => {
                assert("load failed: "@ + ("refresh failed: "@ + error) =~= "load failed: "@
                    + "refresh failed: "@ + error);
            },
            BridgeIn::ListPlugins(_) => {
                assert("load failed: "@ + ("plugin list failed: "@ + error) =~= "load failed: "@
                    + "plugin list failed: "@ + error);
            },
            _ => {},
        }
        assert(shown.skip(shown.len() - error.len()) =~= error);
    }
}

/// The lists of a new connection go where they belong: the first one to the
/// devices, the second one to the notifications.
pub proof fn law_snapshots_go_where_they_belong(
    v: app::AppView,
    devices: JsonView,
    notifications: JsonView,
    error: Seq<char>,
)
    ensures
        ({
            let (first, second) = snapshot(Ok(devices), Ok(notifications));
            &&& app::reduced(v, first).0.devices == model::devices_in(
                model::items_of(devices, "devices"@),
            )
            &&& app::reduced(v, first).0.notifications == v.notifications
            &&& app::reduced(v, second).0.notifications == model::notifications_in(
                model::items_of(notifications, "notifications"@),
            )
            &&& app::reduced(v, second).0.devices == v.devices
            &&& app::reduced(v, snapshot(Err(error), Ok(notifications)).0).0.banner is Some
            &&& app::reduced(v, snapshot(Ok(devices), Err(error)).1).0.banner is Some
            &&& refreshed(Ok(devices)) == Some(
                answer_to(BridgeIn::ListPlugins(error), Ok(devices)),
            )
            &&& refreshed(Err(error)) is None
        }),
{
    reveal(app::logged);
    reveal(app::bannered);
}

/// The status is connected from the moment the connection stands until it
/// ends or another attempt begins, and only a standing connection and a
/// beginning attempt do without a pause.
pub proof fn law_the_status_follows_the_connection(v: app::AppView, milestone: Milestone)
    ensures
        ({
            let message = notices_for(milestone)[0];
            let after = app::reduced(v, message).0;
            &&& notices_for(milestone).len() > 0
            &&& milestone is Established <==> message == app::MessageView::IpcStatus(
                ConnState::Connected,
            )
            &&& milestone is Established ==> after.conn == ConnState::Connected
            &&& milestone is Attempt ==> after.conn == ConnState::Connecting
            &&& milestone is Ended || milestone is Unreachable ==> after.conn
                == ConnState::Disconnected
            &&& milestone is NoEvents ==> after.banner is Some
            &&& pause_at(milestone) is None <==> milestone is Established || milestone is Attempt
            &&& pause_at(milestone) is Some ==> pause_at(milestone)->0 > 0
        }),
{
    reveal(app::logged);
    reveal(app::bannered);
}

} // verus!
