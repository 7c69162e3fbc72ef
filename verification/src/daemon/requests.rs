//! Requests of local clients: which part of the daemon each one concerns, and
//! what the client is answered.
use super::backends;
use super::device;
use super::device::{DeviceRequest, DeviceView};
use super::toggles;
use super::volume::{LocalVolume, NOT_A_PERCENTAGE};
use crate::base::paths;
use crate::base::paths::Paths;
use crate::base::store;
use crate::base::{Error, APP_NAME};
use crate::ipc::proto::ResponseView;
use crate::ipc::{Request, Response, IPC_VERSION};
use crate::json;
use crate::json::{Json, JsonView, Record};
use crate::ordered;
use crate::ordered::TextSet;
use crate::plugins;
use crate::plugins::battery;
use crate::plugins::meta;
use crate::plugins::sms;
use crate::plugins::{MetaView, PluginMeta};
use crate::protocol::identity;
use crate::protocol::identity::IdentityView;
use crate::protocol::{Identity, DEFAULT_TCP_PORT, PROTO_VERSION};
use crate::text;
use vstd::prelude::*;

verus! {

/// What a request asks of the daemon.
#[derive(Debug)]
pub enum Route {
    /// It is answered at once.
    Reply(Response),
    /// Describe the daemon and its session.
    DescribeDaemon,
    /// List the devices.
    ListDevices,
    /// Pair with a device.
    Pair(String),
    /// Revoke trust in a device.
    Unpair(String),
    /// Switch a plugin of a device on or off, and store that.
    SwitchPlugin {
        /// Device.
        device_id: String,
        /// Plugin.
        plugin: String,
        /// Whether the plugin is to be on.
        enabled: bool,
        /// Key to store the toggle under.
        key: String,
        /// Text to store.
        value: String,
    },
    /// List the plugins of a device.
    ListPlugins(String),
    /// Ask something of a device.
    Message {
        /// Device.
        device_id: String,
        /// What is asked.
        request: DeviceRequest,
    },
    /// List the commands that a device offers.
    ListCommands(String),
    /// List the notifications.
    ListNotices,
    /// Dismiss a notification.
    DismissNotice(String),
    /// Read the local output volume.
    ReadVolume,
    /// Set the local output volume to a percentage.
    WriteVolume(u8),
    /// Send a file.
    SendFile {
        /// Device.
        device_id: String,
        /// Path or URI of the file.
        path: String,
    },
    /// Read the clipboard.
    ReadClipboard,
    /// Overwrite the clipboard.
    WriteClipboard(String),
    /// List the transfers.
    ListTransfers,
    /// Cancel a transfer.
    CancelTransfer(String),
}

/// What a [`Route`] says.
pub enum RouteView {
    /// It is answered at once.
    Reply(ResponseView),
    /// Describe the daemon and its session.
    DescribeDaemon,
    /// List the devices.
    ListDevices,
    /// Pair with a device.
    Pair(Seq<char>),
    /// Revoke trust in a device.
    Unpair(Seq<char>),
    /// Switch a plugin of a device on or off, and store that.
    SwitchPlugin {
        /// Device.
        device_id: Seq<char>,
        /// Plugin.
        plugin: Seq<char>,
        /// Whether the plugin is to be on.
        enabled: bool,
        /// Key to store the toggle under.
        key: Seq<char>,
        /// Text to store.
        value: Seq<char>,
    },
    /// List the plugins of a device.
    ListPlugins(Seq<char>),
    /// Ask something of a device.
    Message {
        /// Device.
        device_id: Seq<char>,
        /// What is asked.
        request: DeviceRequest<Seq<char>>,
    },
    /// List the commands that a device offers.
    ListCommands(Seq<char>),
    /// List the notifications.
    ListNotices,
    /// Dismiss a notification.
    DismissNotice(Seq<char>),
    /// Read the local output volume.
    ReadVolume,
    /// Set the local output volume to a percentage.
    WriteVolume(u8),
    /// Send a file.
    SendFile {
        /// Device.
        device_id: Seq<char>,
        /// Path or URI of the file.
        path: Seq<char>,
    },
    /// Read the clipboard.
    ReadClipboard,
    /// Overwrite the clipboard.
    WriteClipboard(Seq<char>),
    /// List the transfers.
    ListTransfers,
    /// Cancel a transfer.
    CancelTransfer(Seq<char>),
}

impl View for Route {
    type V = RouteView;

    open spec fn view(&self) -> RouteView {
        match self {
            Route::Reply(r) => RouteView::Reply(r@),
            Route::DescribeDaemon => RouteView::DescribeDaemon,
            Route::ListDevices => RouteView::ListDevices,
            Route::Pair(id) => RouteView::Pair(id@),
            Route::Unpair(id) => RouteView::Unpair(id@),
            Route::SwitchPlugin { device_id, plugin, enabled, key, value } => RouteView::SwitchPlugin {
                device_id: device_id@,
                plugin: plugin@,
                enabled: *enabled,
                key: key@,
                value: value@,
            },
            Route::ListPlugins(id) => RouteView::ListPlugins(id@),
            Route::Message { device_id, request } => RouteView::Message {
                device_id: device_id@,
                request: request@,
            },
            Route::ListCommands(id) => RouteView::ListCommands(id@),
            Route::ListNotices => RouteView::ListNotices,
            Route::DismissNotice(id) => RouteView::DismissNotice(id@),
            Route::ReadVolume => RouteView::ReadVolume,
            Route::WriteVolume(percent) => RouteView::WriteVolume(*percent),
            Route::SendFile { device_id, path } => RouteView::SendFile {
                device_id: device_id@,
                path: path@,
            },
            Route::ReadClipboard => RouteView::ReadClipboard,
            Route::WriteClipboard(t) => RouteView::WriteClipboard(t@),
            Route::ListTransfers => RouteView::ListTransfers,
            Route::CancelTransfer(id) => RouteView::CancelTransfer(id@),
        }
    }
}

/// A success.
pub open spec fn success(result: JsonView) -> ResponseView {
    ResponseView::Success { result }
}

/// A failure.
pub open spec fn failure(code: i32, message: Seq<char>) -> ResponseView {
    ResponseView::Failure { code, message }
}

/// An object with one flag.
pub open spec fn flag_json(key: Seq<char>, value: bool) -> JsonView {
    JsonView::Object(Map::<Seq<char>, JsonView>::empty().insert(key, JsonView::Bool(value)))
}

/// A plugin as a local client sees it.
pub open spec fn plugin_json(m: MetaView, stored: Option<Seq<char>>) -> JsonView {
    JsonView::Object(
        Map::<Seq<char>, JsonView>::empty()
            .insert("name"@, JsonView::Str(m.name))
            .insert("title"@, JsonView::Str(m.title))
            .insert("enabled"@, JsonView::Bool(toggles::is_enabled(m, stored)))
            .insert("default_enabled"@, JsonView::Bool(m.default_enabled))
            .insert("requires_wayland"@, JsonView::Bool(m.requires_wayland))
            .insert("requires_dbus"@, JsonView::Bool(m.requires_dbus)),
    )
}

/// The whole roster as a local client sees it, with the toggles that were
/// stored, in the order of the roster.
pub open spec fn roster_json(stored: Seq<Option<Seq<char>>>) -> JsonView {
    JsonView::Array(
        meta::roster().map(|i: int, m: MetaView| plugin_json(m, toggles::toggle_at(stored, i))),
    )
}

/// Once a plugin was enabled or disabled on a device, the device's plugins are
/// listed with that state, and the other plugins as before.
pub proof fn law_toggles_are_listed(
    settings: Map<Seq<char>, Seq<char>>,
    device_id: Seq<char>,
    enabled: bool,
    i: int,
    j: int,
)
    requires
        0 <= i < meta::roster().len(),
        0 <= j < meta::roster().len(),
    ensures
        ({
            let request = Request::PluginSetEnabled {
                device_id,
                plugin: meta::roster()[i].name,
                enabled,
            };
            &&& routed(request) matches RouteView::SwitchPlugin { key, value, .. } && {
                let before = toggles::stored_toggles(settings, device_id);
                let after = toggles::stored_toggles(settings.insert(key, value), device_id);
                &&& toggles::is_enabled(meta::roster()[i], toggles::toggle_at(after, i)) == enabled
                &&& meta::roster()[j].name != meta::roster()[i].name ==> toggles::toggle_at(after, j)
                    == toggles::toggle_at(before, j)
            }
        }),
{
    reveal_strlit("1");
    reveal_strlit("0");
    assert("1"@[0] == '1' && "0"@[0] == '0');
    let a = toggles::plugin_key(device_id, meta::roster()[i].name);
    let b = toggles::plugin_key(device_id, meta::roster()[j].name);
    let n = ("plugin:"@ + device_id + ":"@).len() as int;
    assert(a.skip(n) =~= meta::roster()[i].name);
    assert(b.skip(n) =~= meta::roster()[j].name);
}

/// Switching a plugin lasts: where a device's plugins are on or off as was
/// stored, they are so after a request to switch one of them too, once the
/// toggle is stored.
pub proof fn law_switching_lasts(
    settings: Map<Seq<char>, Seq<char>>,
    switches: Map<Seq<char>, Map<Seq<char>, bool>>,
    device_id: Seq<char>,
    i: int,
    enabled: bool,
)
    requires
        0 <= i < meta::roster().len(),
        device::toggles_at(switches, device_id) == toggles::recalled(
            toggles::stored_toggles(settings, device_id),
        ),
    ensures
        ({
            let request = Request::PluginSetEnabled {
                device_id,
                plugin: meta::roster()[i].name,
                enabled,
            };
            &&& routed(request) matches RouteView::SwitchPlugin {
                device_id: at,
                plugin,
                enabled: on,
                key,
                value,
            } && {
                let after = device::after_switch(switches, at, plugin, on);
                device::toggles_at(after, device_id) == toggles::recalled(
                    toggles::stored_toggles(settings.insert(key, value), device_id),
                )
            }
        }),
{
    toggles::law_switching_is_stored(settings, device_id, i, enabled);
}

/// What a request asks of the daemon.
pub open spec fn routed(request: Request<Seq<char>>) -> RouteView {
    match request {
        Request::Ping => RouteView::Reply(success(JsonView::Null)),
        Request::DaemonInfo => RouteView::DescribeDaemon,
        Request::DeviceList => RouteView::ListDevices,
        Request::DevicePair { device_id } => RouteView::Pair(device_id),
        Request::DeviceUnpair { device_id } => RouteView::Unpair(device_id),
        Request::PluginList { device_id } => RouteView::ListPlugins(device_id),
        Request::PluginSetEnabled { device_id, plugin, enabled } => RouteView::SwitchPlugin {
            device_id,
            plugin,
            enabled,
            key: toggles::plugin_key(device_id, plugin),
            value: toggles::toggle_text(enabled),
        },
        Request::SendFile { device_id, path } => RouteView::SendFile { device_id, path },
        Request::NotificationList => RouteView::ListNotices,
        Request::NotificationDismiss { notification_id } => RouteView::DismissNotice(
            notification_id,
        ),
        Request::ClipboardGet => RouteView::ReadClipboard,
        Request::ClipboardSet { text } => RouteView::WriteClipboard(text),
        Request::TransferList => RouteView::ListTransfers,
        Request::TransferCancel { transfer_id } => RouteView::CancelTransfer(transfer_id),
        Request::RunCommandList { device_id } => RouteView::ListCommands(device_id),
        Request::RunCommand { device_id, command_name } => RouteView::Message {
            device_id,
            request: DeviceRequest::RunCommand(command_name),
        },
        Request::SetVolume { percent } => if percent <= 100 {
            RouteView::WriteVolume(percent)
        } else {
            RouteView::Reply(failure(7000, NOT_A_PERCENTAGE@))
        },
        Request::GetVolume => RouteView::ReadVolume,
        Request::ShareText { device_id, text } => RouteView::Message {
            device_id,
            request: DeviceRequest::ShareText(text),
        },
        Request::ShareUrl { device_id, url } => RouteView::Message {
            device_id,
            request: DeviceRequest::ShareUrl(url),
        },
        Request::RequestBattery { device_id } => RouteView::Message {
            device_id,
            request: DeviceRequest::Battery,
        },
        Request::SendSms { device_id, number, text } => RouteView::Message {
            device_id,
            request: DeviceRequest::Sms { number, text },
        },
    }
}

/// A text message for a phone that is paired and connected is not refused,
/// and its number and text are in the one packet that is queued.
pub proof fn law_text_messages_are_queued(
    devices: Map<Seq<char>, DeviceView>,
    device_id: Seq<char>,
    number: Seq<char>,
    text: Seq<char>,
    packet_id: i64,
)
    requires
        devices.contains_key(device_id),
        devices[device_id].outbound is Some,
        devices[device_id].pinned is Some,
    ensures
        routed(Request::SendSms { device_id, number, text }) matches RouteView::Message {
            device_id: to,
            request,
        } && {
            let packet = device::request_packet(request, packet_id);
            &&& to == device_id
            &&& device::request_refusal(devices, to, request) is None
            &&& packet.ptype == sms::TYPE_SMS_REQUEST@
            &&& json::text_at(packet.body, "phoneNumber"@) == Some(number)
            &&& json::text_at(packet.body, "messageBody"@) == Some(text)
        },
{
    reveal_strlit("sendSms");
    reveal_strlit("phoneNumber");
    reveal_strlit("messageBody");
    assert("phoneNumber"@[0] == 'p' && "messageBody"@[0] == 'm' && "sendSms"@[0] == 's');
}

fn flag(key: &str, value: bool) -> (r: Response)
    ensures
        r@ == success(flag_json(key@, value)),
{
    Response::ok_json(Record::new().with(key, Json::Bool(value)).done())
}

/// The roster as a local client sees it. `stored` is what was found under the
/// keys that [`toggles::plugin_keys`] gives.
pub fn plugin_list(stored: &Vec<Option<String>>) -> (r: Json)
    ensures
        r@ == roster_json(toggles::toggles_view(stored@)),
{
    let all = meta::all();
    let ghost views = all@.map_values(|m: PluginMeta| m@);
    let ghost said = toggles::toggles_view(stored@);
    let ghost wanted = meta::roster().map(
        |i: int, m: MetaView| plugin_json(m, toggles::toggle_at(said, i)),
    );
    let mut rows: Vec<Json> = Vec::new();
    let mut i: usize = 0;
    while i < all.len()
        invariant
            i <= all.len(),
            views == all@.map_values(|m: PluginMeta| m@),
            views == meta::roster(),
            said == toggles::toggles_view(stored@),
            wanted == meta::roster().map(
                |i: int, m: MetaView| plugin_json(m, toggles::toggle_at(said, i)),
            ),
            rows@.len() == i,
            forall|j: int| 0 <= j < i ==> (#[trigger] rows@[j])@ == wanted[j],
        decreases all.len() - i,
    {
        let m = &all[i];
        assert(views[i as int] == m@);
        let toggle = if i < stored.len() {
            match &stored[i] {
                Some(t) => Some(t.as_str()),
                None => None,
            }
        } else {
            None
        };
        assert(store::str_view(toggle) == toggles::toggle_at(said, i as int));
        let row = Record::new()
            .with("name", Json::text(m.name))
            .with("title", Json::text(m.title))
            .with("enabled", Json::Bool(toggles::enabled(m, toggle)))
            .with("default_enabled", Json::Bool(m.default_enabled))
            .with("requires_wayland", Json::Bool(m.requires_wayland))
            .with("requires_dbus", Json::Bool(m.requires_dbus))
            .done();
        assert(row@ == wanted[i as int]);
        rows.push(row);
        i += 1;
    }
    proof {
        json::lemma_list_view(rows@);
        assert(views.len() == all@.len());
        assert(json::list_view(rows@) =~= wanted);
    }
    Json::Array(rows)
}

/// The answer to a request for the plugins of a device. `stored` is what was
/// found under the keys that [`toggles::plugin_keys`] gives, or why that failed.
pub fn plugins_response(stored: Result<Vec<Option<String>>, Error>) -> (r: Response)
    ensures
        r@ == match stored {
            Ok(stored) => success(roster_json(toggles::toggles_view(stored@))),
            Err(e) => failure(3000, e.text()),
        },
{
    match stored {
        Ok(stored) => Response::ok_json(plugin_list(&stored)),
        Err(e) => Response::err(3000, e.message().as_str()),
    }
}

/// Says which part of the daemon a request concerns, and answers it where
/// none has to be asked.
pub fn handle_request(request: Request) -> (r: Route)
    ensures
        r@ == routed(request@),
{
    match request {
        Request::Ping => Route::Reply(Response::ok_json(Json::Null)),
        Request::DaemonInfo => Route::DescribeDaemon,
        Request::DeviceList => Route::ListDevices,
        Request::DevicePair { device_id } => Route::Pair(device_id),
        Request::DeviceUnpair { device_id } => Route::Unpair(device_id),
        Request::PluginList { device_id } => Route::ListPlugins(device_id),
        Request::PluginSetEnabled { device_id, plugin, enabled } => {
            let key = toggles::plugin_key_text(device_id.as_str(), plugin.as_str());
            let value = if enabled {
                "1".to_owned()
            } else {
                "0".to_owned()
            };
            Route::SwitchPlugin { device_id, plugin, enabled, key, value }
        },
        Request::SendFile { device_id, path } => Route::SendFile { device_id, path },
        Request::NotificationList => Route::ListNotices,
        Request::NotificationDismiss { notification_id } => Route::DismissNotice(notification_id),
        Request::ClipboardGet => Route::ReadClipboard,
        Request::ClipboardSet { text } => Route::WriteClipboard(text),
        Request::TransferList => Route::ListTransfers,
        Request::TransferCancel { transfer_id } => Route::CancelTransfer(transfer_id),
        Request::RunCommandList { device_id } => Route::ListCommands(device_id),
        Request::RunCommand { device_id, command_name } => Route::Message {
            device_id,
            request: DeviceRequest::RunCommand(command_name),
        },
        Request::SetVolume { percent } => if percent <= 100 {
            Route::WriteVolume(percent)
        } else {
            Route::Reply(Response::err(7000, NOT_A_PERCENTAGE))
        },
        Request::GetVolume => Route::ReadVolume,
        Request::ShareText { device_id, text } => Route::Message {
            device_id,
            request: DeviceRequest::ShareText(text),
        },
        Request::ShareUrl { device_id, url } => Route::Message {
            device_id,
            request: DeviceRequest::ShareUrl(url),
        },
        Request::RequestBattery { device_id } => Route::Message {
            device_id,
            request: DeviceRequest::Battery,
        },
        Request::SendSms { device_id, number, text } => Route::Message {
            device_id,
            request: DeviceRequest::Sms { number, text },
        },
    }
}

/// The code of the failure of what was asked of a device.
pub open spec fn message_code_of(request: DeviceRequest<Seq<char>>) -> i32 {
    match request {
        DeviceRequest::RunCommand(_) => 6000,
        DeviceRequest::ShareText(_) => 8000,
        DeviceRequest::ShareUrl(_) => 8001,
        DeviceRequest::Battery => 9000,
        DeviceRequest::Sms { .. } => 9001,
    }
}

/// The code of the failure of what was asked of a device.
pub fn message_code(request: &DeviceRequest) -> (r: i32)
    ensures
        r == message_code_of(request@),
{
    match request {
        DeviceRequest::RunCommand(_) => 6000,
        DeviceRequest::ShareText(_) => 8000,
        DeviceRequest::ShareUrl(_) => 8001,
        DeviceRequest::Battery => 9000,
        DeviceRequest::Sms { .. } => 9001,
    }
}

/// The answer to a request to ask something of a device; `code` is that of
/// its failure.
pub fn message_response(code: i32, outcome: Result<(), Error>) -> (r: Response)
    ensures
        r@ == match outcome {
            Ok(()) => success(flag_json("queued"@, true)),
            Err(e) => failure(code, e.text()),
        },
{
    match outcome {
        Ok(()) => flag("queued", true),
        Err(e) => Response::err(code, e.message().as_str()),
    }
}

/// The answer to a request to dismiss a notification.
pub fn dismiss_response() -> (r: Response)
    ensures
        r@ == success(flag_json("dismissed"@, true)),
{
    flag("dismissed", true)
}

/// The answer to a request to set the local output volume.
pub fn volume_set_response(outcome: Result<(), Error>) -> (r: Response)
    ensures
        r@ == match outcome {
            Ok(()) => success(flag_json("set"@, true)),
            Err(e) => failure(7000, e.text()),
        },
{
    match outcome {
        Ok(()) => flag("set", true),
        Err(e) => Response::err(7000, e.message().as_str()),
    }
}

/// The local output volume as a local client sees it.
pub open spec fn local_volume_json(v: LocalVolume) -> JsonView {
    JsonView::Object(
        Map::<Seq<char>, JsonView>::empty()
            .insert("percent"@, JsonView::Int(v.percent as int))
            .insert("muted"@, JsonView::Bool(v.muted)),
    )
}

/// The answer to a request for the local output volume.
pub fn volume_get_response(outcome: Result<LocalVolume, Error>) -> (r: Response)
    ensures
        r@ == match outcome {
            Ok(v) => success(local_volume_json(v)),
            Err(e) => failure(7001, e.text()),
        },
{
    match outcome {
        Ok(v) => Response::ok_json(
            Record::new()
                .with("percent", Json::Uint(v.percent as u64))
                .with("muted", Json::Bool(v.muted))
                .done(),
        ),
        Err(e) => Response::err(7001, e.message().as_str()),
    }
}

/// The desktop session that the daemon runs in.
#[derive(Debug)]
pub struct Session {
    /// Kind of the session.
    pub kind: String,
    /// Name of the compositor, where it is known.
    pub compositor: Option<String>,
    /// Protocols that the compositor offers.
    pub protocols: Vec<String>,
}

/// The description of a session.
pub open spec fn session_json(s: Session) -> JsonView {
    JsonView::Object(
        Map::<Seq<char>, JsonView>::empty()
            .insert("kind"@, JsonView::Str(s.kind@))
            .insert(
                "compositor"@,
                match s.compositor {
                    Some(c) => JsonView::Str(c@),
                    None => JsonView::Null,
                },
            )
            .insert("protocols"@, identity::texts_json(text::texts(s.protocols@))),
    )
}

/// The description of the daemon.
pub open spec fn info_json(version: Seq<char>, device_id: Seq<char>, s: Session) -> JsonView {
    JsonView::Object(
        Map::<Seq<char>, JsonView>::empty()
            .insert("app"@, JsonView::Str(APP_NAME@))
            .insert("version"@, JsonView::Str(version))
            .insert("protocol"@, JsonView::Int(PROTO_VERSION as int))
            .insert("ipc"@, JsonView::Int(IPC_VERSION as int))
            .insert("device_id"@, JsonView::Str(device_id))
            .insert("session"@, session_json(s)),
    )
}

/// The answer to a request for a description of the daemon.
pub fn daemon_info(version: &str, device_id: &str, session: &Session) -> (r: Response)
    ensures
        r@ == success(info_json(version@, device_id@, *session)),
{
    let compositor = match &session.compositor {
        Some(c) => Json::text(c.as_str()),
        None => Json::Null,
    };
    let described = Record::new()
        .with("kind", Json::text(session.kind.as_str()))
        .with("compositor", compositor)
        .with("protocols", Json::texts(&session.protocols))
        .done();
    let info = Record::new()
        .with("app", Json::text(APP_NAME))
        .with("version", Json::text(version))
        .with("protocol", Json::Uint(PROTO_VERSION as u64))
        .with("ipc", Json::Uint(IPC_VERSION as u64))
        .with("device_id", Json::text(device_id))
        .with("session", described)
        .done();
    Response::ok_json(info)
}

/// The answer to a request for a list.
pub fn list_response(rows: Vec<Json>) -> (r: Response)
    ensures
        r@ == success(JsonView::Array(json::list_view(rows@))),
{
    Response::ok_json(Json::Array(rows))
}

/// What a caller that asked to pair is answered.
pub open spec fn pair_reply(outcome: Result<bool, Seq<char>>) -> ResponseView {
    match outcome {
        Ok(accepted) => success(flag_json("accepted"@, accepted)),
        Err(why) => failure(2001, why),
    }
}

/// The answer to a pairing request.
pub fn pair_response(outcome: Result<bool, Error>) -> (r: Response)
    ensures
        r@ == pair_reply(
            match outcome {
                Ok(accepted) => Ok(accepted),
                Err(e) => Err(e.text()),
            },
        ),
{
    match outcome {
        Ok(accepted) => flag("accepted", accepted),
        Err(e) => Response::err(2001, e.message().as_str()),
    }
}

/// The answer to a request to revoke trust.
pub fn unpair_response(outcome: Result<(), Error>) -> (r: Response)
    ensures
        r@ == match outcome {
            Ok(()) => success(flag_json("unpaired"@, true)),
            Err(e) => failure(2002, e.text()),
        },
{
    match outcome {
        Ok(()) => flag("unpaired", true),
        Err(e) => Response::err(2002, e.message().as_str()),
    }
}

/// The answer to a request to switch a plugin; `outcome` is how storing the
/// toggle went.
pub fn setting_response(outcome: Result<(), Error>) -> (r: Response)
    ensures
        r@ == match outcome {
            Ok(()) => success(flag_json("saved"@, true)),
            Err(e) => failure(3000, e.text()),
        },
{
    match outcome {
        Ok(()) => flag("saved", true),
        Err(e) => Response::err(3000, e.message().as_str()),
    }
}

/// The answer to a request to send a file.
pub fn send_response(outcome: Result<(), Error>) -> (r: Response)
    ensures
        r@ == match outcome {
            Ok(()) => success(flag_json("queued"@, true)),
            Err(e) => failure(4000, e.text()),
        },
{
    match outcome {
        Ok(()) => flag("queued", true),
        Err(e) => Response::err(4000, e.message().as_str()),
    }
}

/// The answer to a request to cancel a transfer.
pub fn cancel_response(outcome: Result<(), Error>) -> (r: Response)
    ensures
        r@ == match outcome {
            Ok(()) => success(flag_json("cancelled"@, true)),
            Err(e) => failure(4001, e.text()),
        },
{
    match outcome {
        Ok(()) => flag("cancelled", true),
        Err(e) => Response::err(4001, e.message().as_str()),
    }
}

/// The answer to a request to overwrite the clipboard.
pub fn clipboard_set_response(outcome: Result<(), Error>) -> (r: Response)
    ensures
        r@ == match outcome {
            Ok(()) => success(flag_json("set"@, true)),
            Err(e) => failure(5000, e.text()),
        },
{
    match outcome {
        Ok(()) => flag("set", true),
        Err(e) => Response::err(5000, e.message().as_str()),
    }
}

/// What a caller that asked for the clipboard is answered.
pub open spec fn clipboard_reply(outcome: Result<Seq<char>, Seq<char>>) -> ResponseView {
    match outcome {
        Ok(content) => success(
            JsonView::Object(
                Map::<Seq<char>, JsonView>::empty().insert("text"@, JsonView::Str(content)),
            ),
        ),
        Err(why) => failure(5000, why),
    }
}

/// The answer to a request for the clipboard.
pub fn clipboard_get_response(outcome: Result<String, Error>) -> (r: Response)
    ensures
        r@ == clipboard_reply(
            match outcome {
                Ok(content) => Ok(content@),
                Err(e) => Err(e.text()),
            },
        ),
{
    match outcome {
        Ok(content) => Response::ok_json(
            Record::new().with("text", Json::text(content.as_str())).done(),
        ),
        Err(e) => Response::err(5000, e.message().as_str()),
    }
}

/// The packet types that the plugins of a list take.
pub open spec fn all_incoming(metas: Seq<MetaView>) -> Set<Seq<char>>
    decreases metas.len(),
{
    if metas.len() == 0 {
        Set::empty()
    } else {
        all_incoming(metas.drop_last()).union(metas.last().incoming.to_set())
    }
}

/// The packet types that the plugins of a list send.
pub open spec fn all_outgoing(metas: Seq<MetaView>) -> Set<Seq<char>>
    decreases metas.len(),
{
    if metas.len() == 0 {
        Set::empty()
    } else {
        all_outgoing(metas.drop_last()).union(metas.last().outgoing.to_set())
    }
}

/// What this device says of itself: its capabilities are those of all
/// plugins, in order and each once.
pub open spec fn self_identity(device_id: Seq<char>, name: Seq<char>) -> IdentityView {
    IdentityView {
        device_id,
        name,
        device_type: "desktop"@,
        protocol_version: PROTO_VERSION,
        incoming: ordered::listing(all_incoming(meta::roster())),
        outgoing: ordered::listing(all_outgoing(meta::roster())),
        tcp_source_port: DEFAULT_TCP_PORT,
    }
}

/// Adds literals to a set.
fn extend(set: &mut TextSet, items: &Vec<&'static str>)
    ensures
        final(set)@ == old(set)@.union(plugins::literals(items@).to_set()),
{
    let ghost views = plugins::literals(items@);
    let mut i: usize = 0;
    assert(set@ =~= old(set)@.union(views.take(0).to_set()));
    while i < items.len()
        invariant
            i <= items.len(),
            views == plugins::literals(items@),
            set@ == old(set)@.union(views.take(i as int).to_set()),
        decreases items.len() - i,
    {
        let _ = set.insert(items[i]);
        proof {
            assert(views[i as int] == items@[i as int]@);
            assert(views.take(i + 1) =~= views.take(i as int).push(views[i as int]));
            views.take(i as int).lemma_push_to_set_commute(views[i as int]);
            assert(set@ =~= old(set)@.union(views.take(i + 1).to_set()));
        }
        i += 1;
    }
    assert(views.take(i as int) =~= views);
}

/// What this device says of itself.
pub fn build_self_identity(device_id: &str, name: &str) -> (r: Identity)
    ensures
        r@ == self_identity(device_id@, name@),
{
    let all = meta::all();
    let ghost views = all@.map_values(|m: PluginMeta| m@);
    let mut incoming = TextSet::new();
    let mut outgoing = TextSet::new();
    let mut i: usize = 0;
    proof {
        assert(views.take(0) =~= Seq::empty());
    }
    while i < all.len()
        invariant
            i <= all.len(),
            views == all@.map_values(|m: PluginMeta| m@),
            incoming@ == all_incoming(views.take(i as int)),
            outgoing@ == all_outgoing(views.take(i as int)),
        decreases all.len() - i,
    {
        proof {
            assert(views.take(i + 1).drop_last() =~= views.take(i as int));
            assert(views.take(i + 1).last() == all@[i as int]@);
        }
        extend(&mut incoming, &all[i].incoming);
        extend(&mut outgoing, &all[i].outgoing);
        i += 1;
    }
    assert(views.take(i as int) =~= views);
    let r = Identity {
        device_id: device_id.to_owned(),
        name: name.to_owned(),
        device_type: "desktop".to_owned(),
        protocol_version: PROTO_VERSION,
        incoming: incoming.to_vec(),
        outgoing: outgoing.to_vec(),
        tcp_source_port: DEFAULT_TCP_PORT,
    };
    assert(r@ =~= self_identity(device_id@, name@));
    r
}

/// The state directory: the given one, else the data directory.
pub open spec fn state_dir_of(data_dir: Option<Seq<char>>, data: Seq<char>) -> Seq<char> {
    match data_dir {
        Some(dir) => dir,
        None => data,
    }
}

/// Picks the state directory.
pub fn state_dir(data_dir: Option<&str>, dirs: &Paths) -> (r: String)
    ensures
        r@ == state_dir_of(store::str_view(data_dir), dirs@.data),
{
    match data_dir {
        Some(dir) => dir.to_owned(),
        None => dirs.data.clone(),
    }
}

/// Where nothing else is configured, received files land in the downloads
/// directory below the state directory: the given one moves it.
pub proof fn law_files_land_below_the_state_directory(
    data_dir: Option<Seq<char>>,
    data: Seq<char>,
    home: Option<Seq<char>>,
    temp_dir: Seq<char>,
)
    ensures
        backends::staging_of(
            backends::save_target_of(None, home, state_dir_of(data_dir, data)),
            temp_dir,
        ) == match data_dir {
            Some(dir) => paths::below(dir, "downloads"@),
            None => paths::below(data, "downloads"@),
        },
{
}

/// The location of the state database: below the state directory.
pub fn state_db_path(data_dir: Option<&str>, dirs: &Paths) -> (r: String)
    ensures
        r@ == paths::below(state_dir_of(store::str_view(data_dir), dirs@.data), "state.db"@),
{
    paths::join(state_dir(data_dir, dirs).as_str(), "state.db")
}

/// The name behind the `@` of an abstract socket address.
pub fn abstract_name(address: &str) -> (r: Option<String>)
    ensures
        match r {
            Some(name) => address@.len() > 0 && address@[0] == '@' && name@ == address@.skip(1),
            None => address@.len() == 0 || address@[0] != '@',
        },
{
    let chars = text::to_chars(address);
    if chars.len() == 0 || chars[0] != '@' {
        return None;
    }
    assert(chars@.subrange(1, chars.len() as int) =~= address@.skip(1));
    Some(text::range_string(&chars, 1, chars.len()))
}

/// A request is about the device, the file, the transfer or the notification
/// that it names, and carries on what it gives: nothing is redirected and
/// nothing is changed on the way.
pub proof fn law_requests_are_routed_as_given(
    id: Seq<char>,
    content: Seq<char>,
    number: Seq<char>,
    percent: u8,
    enabled: bool,
)
    ensures
        routed(Request::DevicePair { device_id: id }) == RouteView::Pair(id),
        routed(Request::DeviceUnpair { device_id: id }) == RouteView::Unpair(id),
        routed(Request::PluginList { device_id: id }) == RouteView::ListPlugins(id),
        routed(
            Request::PluginSetEnabled { device_id: id, plugin: content, enabled },
        ) matches RouteView::SwitchPlugin { device_id, plugin, enabled: on, key, value }
            && device_id == id && plugin == content && on == enabled && toggles::toggle_of(
            Some(value),
        ) == Some(enabled),
        routed(Request::SendFile { device_id: id, path: content }) == (RouteView::SendFile {
            device_id: id,
            path: content,
        }),
        routed(Request::NotificationDismiss { notification_id: id }) == RouteView::DismissNotice(
            id,
        ),
        routed(Request::ClipboardSet { text: content }) == RouteView::WriteClipboard(content),
        routed(Request::TransferCancel { transfer_id: id }) == RouteView::CancelTransfer(id),
        routed(Request::RunCommandList { device_id: id }) == RouteView::ListCommands(id),
        routed(Request::RunCommand { device_id: id, command_name: content }) == (
        RouteView::Message { device_id: id, request: DeviceRequest::RunCommand(content) }),
        routed(Request::ShareText { device_id: id, text: content }) == (RouteView::Message {
            device_id: id,
            request: DeviceRequest::ShareText(content),
        }),
        routed(Request::ShareUrl { device_id: id, url: content }) == (RouteView::Message {
            device_id: id,
            request: DeviceRequest::ShareUrl(content),
        }),
        routed(Request::RequestBattery { device_id: id }) == (RouteView::Message {
            device_id: id,
            request: DeviceRequest::Battery,
        }),
        routed(Request::SendSms { device_id: id, number, text: content }) == (RouteView::Message {
            device_id: id,
            request: DeviceRequest::Sms { number, text: content },
        }),
        percent <= 100 ==> routed(Request::SetVolume { percent }) == RouteView::WriteVolume(
            percent,
        ),
        percent > 100 ==> (routed(Request::SetVolume { percent }) matches RouteView::Reply(r)
            && r is Failure),
        routed(Request::DaemonInfo) is DescribeDaemon,
        routed(Request::DeviceList) is ListDevices,
        routed(Request::NotificationList) is ListNotices,
        routed(Request::ClipboardGet) is ReadClipboard,
        routed(Request::TransferList) is ListTransfers,
        routed(Request::GetVolume) is ReadVolume,
        routed(Request::Ping) matches RouteView::Reply(r) && r is Success,
{
    reveal_strlit("1");
    reveal_strlit("0");
    assert("1"@[0] == '1' && "0"@[0] == '0');
}

/// A caller that asked to pair is told the device's decision, and one that
/// asked for the clipboard is told what it holds; where there is no answer the
/// caller gets a failure with the reason.
pub proof fn law_callers_are_answered_truly(
    accepted: bool,
    content: Seq<char>,
    why: Seq<char>,
    v: LocalVolume,
)
    ensures
        pair_reply(Ok(accepted)) matches ResponseView::Success { result } && json::flag_at(
            result,
            "accepted"@,
        ) == Some(accepted),
        pair_reply(Err(why)) matches ResponseView::Failure { message, .. } && message == why,
        clipboard_reply(Ok(content)) matches ResponseView::Success { result } && json::text_at(
            result,
            "text"@,
        ) == Some(content),
        clipboard_reply(Err(why)) matches ResponseView::Failure { message, .. } && message == why,
        json::count_at(local_volume_json(v), "percent"@) == Some(v.percent as u64),
        json::flag_at(local_volume_json(v), "muted"@) == Some(v.muted),
{
    reveal_strlit("percent");
    reveal_strlit("muted");
    assert("percent"@.len() == 7);
    assert("muted"@.len() == 5);
}

/// A plugin is listed with what it says of itself, and as enabled where its
/// toggle says so; without a toggle it is as it is by default.
pub proof fn law_plugins_are_listed_as_they_are(m: MetaView, enabled: bool)
    ensures
        ({
            let row = plugin_json(m, None);
            &&& json::text_at(row, "name"@) == Some(m.name)
            &&& json::text_at(row, "title"@) == Some(m.title)
            &&& json::flag_at(row, "enabled"@) == Some(m.default_enabled)
            &&& json::flag_at(row, "default_enabled"@) == Some(m.default_enabled)
            &&& json::flag_at(row, "requires_wayland"@) == Some(m.requires_wayland)
            &&& json::flag_at(row, "requires_dbus"@) == Some(m.requires_dbus)
        }),
        json::flag_at(
            plugin_json(
                m,
                Some(
                    if enabled {
                        "1"@
                    } else {
                        "0"@
                    },
                ),
            ),
            "enabled"@,
        ) == Some(enabled),
{
    reveal_strlit("1");
    reveal_strlit("0");
    assert("1"@[0] == '1' && "0"@[0] == '0');
    reveal_strlit("name");
    reveal_strlit("title");
    reveal_strlit("enabled");
    reveal_strlit("default_enabled");
    reveal_strlit("requires_wayland");
    reveal_strlit("requires_dbus");
    assert("name"@.len() == 4);
    assert("title"@.len() == 5);
    assert("enabled"@.len() == 7);
    assert("default_enabled"@.len() == 15);
    assert("requires_wayland"@.len() == 16);
    assert("requires_dbus"@.len() == 13);
}

/// The daemon describes itself by its version, its device id and its session,
/// each under its own name.
pub proof fn law_the_daemon_describes_itself(
    version: Seq<char>,
    device_id: Seq<char>,
    s: Session,
)
    ensures
        ({
            let info = info_json(version, device_id, s);
            &&& json::text_at(info, "app"@) == Some(APP_NAME@)
            &&& json::text_at(info, "version"@) == Some(version)
            &&& json::text_at(info, "device_id"@) == Some(device_id)
            &&& json::count_at(info, "protocol"@) == Some(PROTO_VERSION as u64)
            &&& json::count_at(info, "ipc"@) == Some(IPC_VERSION as u64)
            &&& json::member(info, "session"@) matches Some(session) && {
                &&& json::text_at(session, "kind"@) == Some(s.kind@)
                &&& s.compositor matches Some(c) ==> json::text_at(session, "compositor"@) == Some(
                    c@,
                )
                &&& s.compositor is None ==> json::member(session, "compositor"@) == Some(
                    JsonView::Null,
                )
                &&& json::list_at(session, "protocols"@) matches Some(l) && l.len()
                    == s.protocols@.len() && forall|i: int|
                    0 <= i < l.len() ==> #[trigger] l[i] == JsonView::Str(s.protocols@[i]@)
            }
        }),
{
    reveal_strlit("app");
    reveal_strlit("version");
    reveal_strlit("protocol");
    reveal_strlit("ipc");
    reveal_strlit("device_id");
    reveal_strlit("session");
    assert("app"@.len() == 3);
    assert("version"@.len() == 7);
    assert("protocol"@.len() == 8);
    assert("ipc"@.len() == 3);
    assert("device_id"@.len() == 9);
    assert("session"@.len() == 7);
    assert("app"@[0] != "ipc"@[0]);
    assert("version"@[0] != "session"@[0]);
    reveal_strlit("kind");
    reveal_strlit("compositor");
    reveal_strlit("protocols");
    assert("kind"@.len() == 4);
    assert("compositor"@.len() == 10);
    assert("protocols"@.len() == 9);
}

/// This device announces that it receives exactly the packet types that some
/// plugin takes, and that it sends exactly those that some plugin sends.
pub proof fn law_capabilities_are_those_of_the_plugins(
    metas: Seq<MetaView>,
    ptype: Seq<char>,
    device_id: Seq<char>,
    name: Seq<char>,
)
    ensures
        all_incoming(metas).contains(ptype) == exists|i: int|
            0 <= i < metas.len() && (#[trigger] metas[i]).incoming.contains(ptype),
        all_outgoing(metas).contains(ptype) == exists|i: int|
            0 <= i < metas.len() && (#[trigger] metas[i]).outgoing.contains(ptype),
        self_identity(device_id, name).device_id == device_id,
        self_identity(device_id, name).name == name,
        self_identity(device_id, name).device_type == "desktop"@,
        self_identity(device_id, name).protocol_version == 8,
        self_identity(device_id, name).tcp_source_port == 1716,
        self_identity(device_id, name).incoming.contains(ptype) == all_incoming(
            meta::roster(),
        ).contains(ptype),
        self_identity(device_id, name).outgoing.contains(ptype) == all_outgoing(
            meta::roster(),
        ).contains(ptype),
{
    lemma_capabilities(metas, ptype);
    lemma_finite_capabilities(meta::roster());
    let (a, b) = (all_incoming(meta::roster()), all_outgoing(meta::roster()));
    ordered::law_listings_are_ordered(a);
    ordered::law_listings_are_ordered(b);
    assert(ordered::listing(a).to_set().contains(ptype) == a.contains(ptype));
    assert(ordered::listing(b).to_set().contains(ptype) == b.contains(ptype));
}

proof fn lemma_finite_capabilities(metas: Seq<MetaView>)
    ensures
        all_incoming(metas).finite(),
        all_outgoing(metas).finite(),
    decreases metas.len(),
{
    if metas.len() > 0 {
        lemma_finite_capabilities(metas.drop_last());
    }
}

proof fn lemma_capabilities(metas: Seq<MetaView>, ptype: Seq<char>)
    ensures
        all_incoming(metas).contains(ptype) == exists|i: int|
            0 <= i < metas.len() && (#[trigger] metas[i]).incoming.contains(ptype),
        all_outgoing(metas).contains(ptype) == exists|i: int|
            0 <= i < metas.len() && (#[trigger] metas[i]).outgoing.contains(ptype),
    decreases metas.len(),
{
    if metas.len() > 0 {
        let rest = metas.drop_last();
        lemma_capabilities(rest, ptype);
        assert(metas.last() == metas[metas.len() - 1]);
        assert(forall|i: int| 0 <= i < rest.len() ==> rest[i] == metas[i]);
        if exists|i: int| 0 <= i < metas.len() && (#[trigger] metas[i]).incoming.contains(ptype) {
            let i = choose|i: int|
                0 <= i < metas.len() && (#[trigger] metas[i]).incoming.contains(ptype);
            if i < rest.len() {
                assert(rest[i].incoming.contains(ptype));
            }
        }
        if exists|i: int| 0 <= i < metas.len() && (#[trigger] metas[i]).outgoing.contains(ptype) {
            let i = choose|i: int|
                0 <= i < metas.len() && (#[trigger] metas[i]).outgoing.contains(ptype);
            if i < rest.len() {
                assert(rest[i].outgoing.contains(ptype));
            }
        }
    }
}

/// Each thing that can be asked of a device fails under a code of its own.
pub proof fn law_failures_are_told_apart(
    request: DeviceRequest<Seq<char>>,
)
    ensures
        request is RunCommand <==> message_code_of(request) == 6000,
        request is ShareText <==> message_code_of(request) == 8000,
        request is ShareUrl <==> message_code_of(request) == 8001,
        request is Battery <==> message_code_of(request) == 9000,
        request is Sms <==> message_code_of(request) == 9001,
{
}

} // verus!
