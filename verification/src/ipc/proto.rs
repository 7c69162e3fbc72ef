//! Message types exchanged over the local socket, and their documents.
//!
//! A request is `{"method": "<name>", "params": {...}}`, a response has a
//! `status`, and an event pushed by the daemon is
//! `{"event": "<name>", "data": {...}}`.
use crate::base::bus::Event;
use crate::json;
use crate::json::{Json, JsonView, Record};
use crate::plugins::battery;
use crate::text;
use vstd::prelude::*;

verus! {

/// Requests a local client may send to the daemon; `S` is the type of their
/// texts.
#[derive(Debug, Clone, PartialEq, Eq)]
pub enum Request<S = String> {
    /// Query daemon identity and capabilities.
    DaemonInfo,
    /// List all known devices.
    DeviceList,
    /// Start pairing with a discovered device.
    DevicePair {
        /// Target device identifier.
        device_id: S,
    },
    /// Revoke an existing pairing.
    DeviceUnpair {
        /// Target device identifier.
        device_id: S,
    },
    /// List plugins available for a device together with their enabled state.
    PluginList {
        /// Target device identifier.
        device_id: S,
    },
    /// Enable or disable one plugin on a device.
    PluginSetEnabled {
        /// Target device identifier.
        device_id: S,
        /// Plugin identifier.
        plugin: S,
        /// Desired enabled state.
        enabled: bool,
    },
    /// Send a local file to a device.
    SendFile {
        /// Target device identifier.
        device_id: S,
        /// Absolute path of the file to transfer.
        path: S,
    },
    /// List notifications currently shown on this machine.
    NotificationList,
    /// Dismiss one notification by id.
    NotificationDismiss {
        /// Notification identifier.
        notification_id: S,
    },
    /// Read the local clipboard text.
    ClipboardGet,
    /// Overwrite the local clipboard text.
    ClipboardSet {
        /// New clipboard content.
        text: S,
    },
    /// Liveness probe; answered at once.
    Ping,
    /// List all transfers (active and finished).
    TransferList,
    /// Cancel an ongoing transfer.
    TransferCancel {
        /// Transfer identifier.
        transfer_id: S,
    },
    /// List commands available for a device.
    RunCommandList {
        /// Target device identifier.
        device_id: S,
    },
    /// Run one named command on a device.
    RunCommand {
        /// Target device identifier.
        device_id: S,
        /// Command identifier from the command list.
        command_name: S,
    },
    /// Set the local output volume.
    SetVolume {
        /// Desired volume percentage (0-100).
        percent: u8,
    },
    /// Query the local output volume.
    GetVolume,
    /// Share local text with a device.
    ShareText {
        /// Target device identifier.
        device_id: S,
        /// Text payload.
        text: S,
    },
    /// Open a URL on a device.
    ShareUrl {
        /// Target device identifier.
        device_id: S,
        /// URL to open.
        url: S,
    },
    /// Ask a device for its current battery state.
    RequestBattery {
        /// Target device identifier.
        device_id: S,
    },
    /// Send an SMS from a paired phone.
    SendSms {
        /// Target device identifier.
        device_id: S,
        /// Recipient phone number.
        number: S,
        /// Message body text.
        text: S,
    },
}

impl View for Request<String> {
    type V = Request<Seq<char>>;

    open spec fn view(&self) -> Request<Seq<char>> {
        match self {
            Request::DaemonInfo => Request::DaemonInfo,
            Request::DeviceList => Request::DeviceList,
            Request::DevicePair { device_id } => Request::DevicePair { device_id: device_id@ },
            Request::DeviceUnpair { device_id } => Request::DeviceUnpair { device_id: device_id@ },
            Request::PluginList { device_id } => Request::PluginList { device_id: device_id@ },
            Request::PluginSetEnabled { device_id, plugin, enabled } => Request::PluginSetEnabled {
                device_id: device_id@,
                plugin: plugin@,
                enabled: *enabled,
            },
            Request::SendFile { device_id, path } => Request::SendFile {
                device_id: device_id@,
                path: path@,
            },
            Request::NotificationList => Request::NotificationList,
            Request::NotificationDismiss { notification_id } => Request::NotificationDismiss {
                notification_id: notification_id@,
            },
            Request::ClipboardGet => Request::ClipboardGet,
            Request::ClipboardSet { text } => Request::ClipboardSet { text: text@ },
            Request::Ping => Request::Ping,
            Request::TransferList => Request::TransferList,
            Request::TransferCancel { transfer_id } => Request::TransferCancel {
                transfer_id: transfer_id@,
            },
            Request::RunCommandList { device_id } => Request::RunCommandList {
                device_id: device_id@,
            },
            Request::RunCommand { device_id, command_name } => Request::RunCommand {
                device_id: device_id@,
                command_name: command_name@,
            },
            Request::SetVolume { percent } => Request::SetVolume { percent: *percent },
            Request::GetVolume => Request::GetVolume,
            Request::ShareText { device_id, text } => Request::ShareText {
                device_id: device_id@,
                text: text@,
            },
            Request::ShareUrl { device_id, url } => Request::ShareUrl {
                device_id: device_id@,
                url: url@,
            },
            Request::RequestBattery { device_id } => Request::RequestBattery {
                device_id: device_id@,
            },
            Request::SendSms { device_id, number, text } => Request::SendSms {
                device_id: device_id@,
                number: number@,
                text: text@,
            },
        }
    }
}

/// Replies sent by the daemon for every [`Request`].
#[derive(Debug, PartialEq, Eq)]
pub enum Response {
    /// Successful reply carrying an arbitrary JSON result.
    Success {
        /// Result payload.
        result: Json,
    },
    /// Failure reply with a machine-readable code and human message.
    Failure {
        /// Numeric error code.
        code: i32,
        /// Human-readable description.
        message: String,
    },
}

/// What a [`Response`] says.
pub enum ResponseView {
    /// Successful reply.
    Success {
        /// Result payload.
        result: JsonView,
    },
    /// Failure reply.
    Failure {
        /// Numeric error code.
        code: i32,
        /// Human-readable description.
        message: Seq<char>,
    },
}

impl View for Response {
    type V = ResponseView;

    open spec fn view(&self) -> ResponseView {
        match self {
            Response::Success { result } => ResponseView::Success { result: result@ },
            Response::Failure { code, message } => ResponseView::Failure { code: *code, message: message@ },
        }
    }
}

impl Response {
    /// Build a successful response wrapping `v`.
    pub fn ok_json(v: Json) -> (r: Self)
        ensures
            r@ == (ResponseView::Success { result: v@ }),
    {
        Response::Success { result: v }
    }

    /// Build an error response.
    pub fn err(code: i32, msg: &str) -> (r: Self)
        ensures
            r@ == (ResponseView::Failure { code, message: msg@ }),
    {
        Response::Failure { code, message: msg.to_owned() }
    }
}

/// Server-pushed events streamed to clients alongside responses; `S` is the
/// type of their texts.
#[derive(Debug, Clone, PartialEq, Eq)]
pub enum ServerEvent<S = String> {
    /// First frame after connecting; identifies the daemon.
    Hello {
        /// Wire protocol version.
        version: u32,
        /// Application name.
        app: S,
        /// Daemon process id.
        pid: u32,
    },
    /// A device announced itself on the network.
    DeviceFound {
        /// Stable device identifier.
        id: S,
        /// Human-readable device name.
        name: S,
    },
    /// A previously visible device disappeared.
    DeviceLost {
        /// Device identifier.
        id: S,
    },
    /// Connectivity state changed.
    DeviceStateChanged {
        /// Device identifier.
        id: S,
        /// New state label.
        state: S,
    },
    /// Progress update for an ongoing transfer.
    TransferProgress {
        /// Transfer identifier.
        id: S,
        /// Bytes transferred so far.
        bytes_done: u64,
        /// Total transfer size in bytes.
        bytes_total: u64,
    },
    /// A new transfer was registered.
    TransferAdded {
        /// Transfer identifier.
        id: S,
        /// Peer device identifier.
        device_id: S,
        /// Direction label (`"outgoing"` or `"incoming"`).
        direction: S,
        /// Name of the transferred file.
        file_name: S,
        /// Total transfer size in bytes.
        total: u64,
    },
    /// A transfer completed successfully.
    TransferFinished {
        /// Transfer identifier.
        id: S,
    },
    /// A transfer failed or was cancelled.
    TransferFailed {
        /// Transfer identifier.
        id: S,
        /// Human-readable failure reason.
        reason: S,
    },
    /// An incoming notification arrived on a paired device.
    NotificationReceived {
        /// Notification identifier.
        id: S,
        /// Originating application name.
        app: S,
        /// Notification title.
        title: S,
        /// Notification body text.
        body: S,
    },
    /// Remote clipboard content was received.
    ClipboardUpdated {
        /// Clipboard text.
        text: S,
    },
    /// Structured log record forwarded from the daemon.
    LogRecord {
        /// Severity label.
        level: S,
        /// Rendered message.
        msg: S,
    },
    /// A paired device reported new battery state.
    BatteryChanged {
        /// Device identifier.
        device_id: S,
        /// Battery percentage (0-100).
        level: u8,
        /// Whether the device is currently charging.
        charging: bool,
    },
    /// A paired phone reported a telephony state change.
    TelephonyEvent {
        /// Device identifier.
        device_id: S,
        /// New state label (`"ringing"`, `"talking"`, …).
        state: S,
        /// Remote number when known.
        number: Option<S>,
    },
    /// Local output volume changed.
    VolumeChanged {
        /// Volume percentage (0-100).
        percent: u8,
        /// Whether output is muted.
        muted: bool,
    },
    /// Result of a remotely executed command.
    CommandResult {
        /// Device identifier.
        device_id: S,
        /// Command identifier from the command list.
        name: S,
        /// Whether execution succeeded.
        success: bool,
        /// Captured command output.
        output: S,
    },
    /// The daemon is shutting down.
    DaemonShutdown,
}

impl View for ServerEvent<String> {
    type V = ServerEvent<Seq<char>>;

    open spec fn view(&self) -> ServerEvent<Seq<char>> {
        match self {
            ServerEvent::Hello { version, app, pid } => ServerEvent::Hello {
                version: *version,
                app: app@,
                pid: *pid,
            },
            ServerEvent::DeviceFound { id, name } => ServerEvent::DeviceFound {
                id: id@,
                name: name@,
            },
            ServerEvent::DeviceLost { id } => ServerEvent::DeviceLost { id: id@ },
            ServerEvent::DeviceStateChanged { id, state } => ServerEvent::DeviceStateChanged {
                id: id@,
                state: state@,
            },
            ServerEvent::TransferProgress { id, bytes_done, bytes_total } => ServerEvent::TransferProgress {
                id: id@,
                bytes_done: *bytes_done,
                bytes_total: *bytes_total,
            },
            ServerEvent::TransferAdded { id, device_id, direction, file_name, total } => ServerEvent::TransferAdded {
                id: id@,
                device_id: device_id@,
                direction: direction@,
                file_name: file_name@,
                total: *total,
            },
            ServerEvent::TransferFinished { id } => ServerEvent::TransferFinished { id: id@ },
            ServerEvent::TransferFailed { id, reason } => ServerEvent::TransferFailed {
                id: id@,
                reason: reason@,
            },
            ServerEvent::NotificationReceived { id, app, title, body } => ServerEvent::NotificationReceived {
                id: id@,
                app: app@,
                title: title@,
                body: body@,
            },
            ServerEvent::ClipboardUpdated { text } => ServerEvent::ClipboardUpdated { text: text@ },
            ServerEvent::LogRecord { level, msg } => ServerEvent::LogRecord {
                level: level@,
                msg: msg@,
            },
            ServerEvent::BatteryChanged { device_id, level, charging } => ServerEvent::BatteryChanged {
                device_id: device_id@,
                level: *level,
                charging: *charging,
            },
            ServerEvent::TelephonyEvent { device_id, state, number } => ServerEvent::TelephonyEvent {
                device_id: device_id@,
                state: state@,
                number: crate::plugins::battery::optional_text(*number),
            },
            ServerEvent::VolumeChanged { percent, muted } => ServerEvent::VolumeChanged {
                percent: *percent,
                muted: *muted,
            },
            ServerEvent::CommandResult { device_id, name, success, output } => ServerEvent::CommandResult {
                device_id: device_id@,
                name: name@,
                success: *success,
                output: output@,
            },
            ServerEvent::DaemonShutdown => ServerEvent::DaemonShutdown,
        }
    }
}

/// The document of a message without content.
pub open spec fn bare(tag: Seq<char>, name: Seq<char>) -> JsonView {
    JsonView::Object(Map::<Seq<char>, JsonView>::empty().insert(tag, JsonView::Str(name)))
}

/// The document of a message with content.
pub open spec fn tagged(
    tag: Seq<char>,
    name: Seq<char>,
    content: Seq<char>,
    members: Map<Seq<char>, JsonView>,
) -> JsonView {
    JsonView::Object(
        Map::<Seq<char>, JsonView>::empty()
            .insert(tag, JsonView::Str(name))
            .insert(content, JsonView::Object(members)),
    )
}

fn bare_document(tag: &str, name: &str) -> (r: Json)
    ensures
        r@ == bare(tag@, name@),
{
    Record::new().with(tag, Json::text(name)).done()
}

fn tagged_document(tag: &str, name: &str, content: &str, members: Record) -> (r: Json)
    ensures
        r@ == tagged(tag@, name@, content@, members@),
{
    Record::new().with(tag, Json::text(name)).with(content, members.done()).done()
}

/// Whether `m` holds `null` under `k` and nothing else.
pub open spec fn only_null_at(m: Map<Seq<char>, JsonView>, k: Seq<char>) -> bool {
    m == Map::<Seq<char>, JsonView>::empty().insert(k, JsonView::Null)
}

/// The name that a tag gives: a string, or an object with `null` under that
/// one name.
pub open spec fn tag_name(v: JsonView) -> Option<Seq<char>> {
    match v {
        JsonView::Str(s) => Some(s),
        JsonView::Object(m) => if exists|k: Seq<char>| only_null_at(m, k) {
            Some(choose|k: Seq<char>| only_null_at(m, k))
        } else {
            None
        },
        _ => None,
    }
}

/// The name and content of a message: the members `tag` and `content` of an
/// object, or the two items of a list.
pub open spec fn envelope(j: JsonView, tag: Seq<char>, content: Seq<char>) -> Option<
    (Seq<char>, Option<JsonView>),
> {
    match j {
        JsonView::Object(m) => match json::member(j, tag) {
            Some(t) => match tag_name(t) {
                Some(name) => Some((name, json::member(j, content))),
                None => None,
            },
            None => None,
        },
        JsonView::Array(s) => if s.len() == 2 {
            match s[0] {
                JsonView::Str(name) => Some((name, Some(s[1]))),
                _ => None,
            }
        } else {
            None
        },
        _ => None,
    }
}

/// The content, or `null` where there is none.
pub open spec fn content_or_null(content: Option<JsonView>) -> JsonView {
    match content {
        Some(c) => c,
        None => JsonView::Null,
    }
}

/// Reads the name that a tag gives.
fn read_tag(v: &Json) -> (r: Option<String>)
    ensures
        match r {
            Some(name) => tag_name(v@) == Some(name@),
            None => tag_name(v@) is None,
        },
{
    match v {
        Json::Str(s) => Some(s.clone()),
        Json::Object(entries) => {
            let ghost m = json::entries_view(entries@);
            if entries.len() == 0 {
                assert(!(exists|k: Seq<char>| only_null_at(m, k))) by {
                    if exists|k: Seq<char>| only_null_at(m, k) {
                        let k = choose|k: Seq<char>| only_null_at(m, k);
                        assert(m.contains_key(k));
                    }
                }
                return None;
            }
            let name = entries[0].0.as_str();
            let mut i: usize = 0;
            while i < entries.len()
                invariant
                    i <= entries.len(),
                    entries@.len() > 0,
                    name@ == entries@[0].0@,
                    m == json::entries_view(entries@),
                    v@ == JsonView::Object(m),
                    forall|j: int| 0 <= j < i ==> (#[trigger] entries@[j]).0@ == name@,
                decreases entries.len() - i,
            {
                if !text::same(entries[i].0.as_str(), name) {
                    proof {
                        json::lemma_entries_keys(entries@, 0);
                        json::lemma_entries_keys(entries@, i as int);
                        if exists|k: Seq<char>| only_null_at(m, k) {
                            let k = choose|k: Seq<char>| only_null_at(m, k);
                            assert(m.contains_key(entries@[0].0@));
                            assert(m.contains_key(entries@[i as int].0@));
                        }
                    }
                    return None;
                }
                i += 1;
            }
            proof {
                json::lemma_entries_keys(entries@, 0);
                json::lemma_entries_one_key(entries@, name@);
            }
            match json::lookup(entries, name) {
                Some(value) => {
                    if is_null(value) {
                        proof {
                            assert(m =~= Map::<Seq<char>, JsonView>::empty().insert(
                                name@,
                                JsonView::Null,
                            ));
                            assert(only_null_at(m, name@));
                            let k = choose|k: Seq<char>| only_null_at(m, k);
                            assert(m.contains_key(k));
                        }
                        Some(name.to_owned())
                    } else {
                        proof {
                            if exists|k: Seq<char>| only_null_at(m, k) {
                                let k = choose|k: Seq<char>| only_null_at(m, k);
                                assert(m.contains_key(k));
                                assert(k == name@);
                            }
                        }
                        None
                    }
                },
                None => None,
            }
        },
        _ => None,
    }
}

/// Reads the name and content of a message.
fn open_envelope<'a>(j: &'a Json, tag: &str, content: &str) -> (r: Option<
    (String, Option<&'a Json>),
>)
    ensures
        match (r, envelope(j@, tag@, content@)) {
            (Some((name, c)), Some((n, d))) => name@ == n && match (c, d) {
                (Some(x), Some(y)) => x@ == y,
                (None, None) => true,
                _ => false,
            },
            (None, None) => true,
            _ => false,
        },
{
    match j {
        Json::Object(_) => match j.get(tag) {
            Some(t) => match read_tag(t) {
                Some(name) => Some((name, j.get(content))),
                None => None,
            },
            None => None,
        },
        Json::Array(items) => {
            proof {
                json::lemma_list_view(items@);
            }
            if items.len() != 2 {
                return None;
            }
            match &items[0] {
                Json::Str(name) => Some((name.clone(), Some(&items[1]))),
                _ => None,
            }
        },
        _ => None,
    }
}

fn is_null(j: &Json) -> (r: bool)
    ensures
        r == (j@ is Null),
{
    match j {
        Json::Null => true,
        _ => false,
    }
}

fn owned(s: Option<&str>) -> (r: Option<String>)
    ensures
        match (r, s) {
            (Some(a), Some(b)) => a@ == b@,
            (None, None) => true,
            _ => false,
        },
{
    match s {
        Some(t) => Some(t.to_owned()),
        None => None,
    }
}

/// An 8-bit number under `key`.
pub open spec fn tiny_count_at(j: JsonView, key: Seq<char>) -> Option<u8> {
    match json::count_at(j, key) {
        Some(n) if n <= 0xff => Some(n as u8),
        _ => None,
    }
}

/// A 32-bit number under `key`.
pub open spec fn small_count_at(j: JsonView, key: Seq<char>) -> Option<u32> {
    match json::count_at(j, key) {
        Some(n) if n <= 0xffff_ffff => Some(n as u32),
        _ => None,
    }
}

/// An optional text under `key`: absent and `null` are none.
pub open spec fn optional_text_at(j: JsonView, key: Seq<char>) -> Option<Option<Seq<char>>> {
    match json::member(j, key) {
        None => Some(None),
        Some(JsonView::Null) => Some(None),
        Some(JsonView::Str(s)) => Some(Some(s)),
        _ => None,
    }
}

/// The document of an optional text.
pub open spec fn optional_json(s: Option<Seq<char>>) -> JsonView {
    match s {
        Some(t) => JsonView::Str(t),
        None => JsonView::Null,
    }
}

fn optional_document(s: &Option<String>) -> (r: Json)
    ensures
        r@ == optional_json(battery::optional_text(*s)),
{
    match s {
        Some(t) => Json::text(t.as_str()),
        None => Json::Null,
    }
}

fn optional_member(j: &Json, key: &str) -> (r: Option<Option<String>>)
    ensures
        match r {
            Some(s) => optional_text_at(j@, key@) == Some(battery::optional_text(s)),
            None => optional_text_at(j@, key@) is None,
        },
{
    match j.get(key) {
        None => Some(None),
        Some(Json::Null) => Some(None),
        Some(Json::Str(s)) => Some(Some(s.clone())),
        Some(_) => None,
    }
}

fn tiny_count(j: &Json, key: &str) -> (r: Option<u8>)
    ensures
        r == tiny_count_at(j@, key@),
{
    match j.u64_member(key) {
        Some(n) => if n <= 0xff {
            Some(n as u8)
        } else {
            None
        },
        None => None,
    }
}

fn small_count(j: &Json, key: &str) -> (r: Option<u32>)
    ensures
        r == small_count_at(j@, key@),
{
    match j.u64_member(key) {
        Some(n) => if n <= 0xffff_ffff {
            Some(n as u32)
        } else {
            None
        },
        None => None,
    }
}

proof fn lemma_envelope_names()
    ensures
        "method"@ != "params"@,
        "event"@ != "data"@,
        "status"@ != "result"@,
        "status"@ != "code"@,
        "status"@ != "message"@,
        "code"@ != "message"@,
        "ok"@ != "err"@,
        "status"@ != "event"@,
        "result"@ != "event"@,
        "code"@ != "event"@,
        "message"@ != "event"@,
{
    reveal_strlit("method");
    reveal_strlit("params");
    reveal_strlit("event");
    reveal_strlit("data");
    reveal_strlit("status");
    reveal_strlit("result");
    reveal_strlit("code");
    reveal_strlit("message");
    reveal_strlit("ok");
    reveal_strlit("err");
    assert("method"@[0] != "params"@[0]);
    assert("event"@.len() == 5 && "data"@.len() == 4 && "code"@.len() == 4);
    assert("status"@[0] != "result"@[0]);
    assert("status"@.len() == 6 && "result"@.len() == 6 && "message"@.len() == 7);
    assert("ok"@.len() == 2 && "err"@.len() == 3);
}

/// The document of a request.
pub open spec fn request_json(m: Request<Seq<char>>) -> JsonView {
    match m {
        Request::DaemonInfo => bare("method"@, "daemon_info"@),
        Request::DeviceList => bare("method"@, "device_list"@),
        Request::DevicePair { device_id } => tagged(
            "method"@,
            "device_pair"@,
            "params"@,
            Map::<Seq<char>, JsonView>::empty()
                .insert("device_id"@, JsonView::Str(device_id)),
        ),
        Request::DeviceUnpair { device_id } => tagged(
            "method"@,
            "device_unpair"@,
            "params"@,
            Map::<Seq<char>, JsonView>::empty()
                .insert("device_id"@, JsonView::Str(device_id)),
        ),
        Request::PluginList { device_id } => tagged(
            "method"@,
            "plugin_list"@,
            "params"@,
            Map::<Seq<char>, JsonView>::empty()
                .insert("device_id"@, JsonView::Str(device_id)),
        ),
        Request::PluginSetEnabled { device_id, plugin, enabled } => tagged(
            "method"@,
            "plugin_set_enabled"@,
            "params"@,
            Map::<Seq<char>, JsonView>::empty()
                .insert("device_id"@, JsonView::Str(device_id))
                .insert("plugin"@, JsonView::Str(plugin))
                .insert("enabled"@, JsonView::Bool(enabled)),
        ),
        Request::SendFile { device_id, path } => tagged(
            "method"@,
            "send_file"@,
            "params"@,
            Map::<Seq<char>, JsonView>::empty()
                .insert("device_id"@, JsonView::Str(device_id))
                .insert("path"@, JsonView::Str(path)),
        ),
        Request::NotificationList => bare("method"@, "notification_list"@),
        Request::NotificationDismiss { notification_id } => tagged(
            "method"@,
            "notification_dismiss"@,
            "params"@,
            Map::<Seq<char>, JsonView>::empty()
                .insert("notification_id"@, JsonView::Str(notification_id)),
        ),
        Request::ClipboardGet => bare("method"@, "clipboard_get"@),
        Request::ClipboardSet { text } => tagged(
            "method"@,
            "clipboard_set"@,
            "params"@,
            Map::<Seq<char>, JsonView>::empty()
                .insert("text"@, JsonView::Str(text)),
        ),
        Request::Ping => bare("method"@, "ping"@),
        Request::TransferList => bare("method"@, "transfer_list"@),
        Request::TransferCancel { transfer_id } => tagged(
            "method"@,
            "transfer_cancel"@,
            "params"@,
            Map::<Seq<char>, JsonView>::empty()
                .insert("transfer_id"@, JsonView::Str(transfer_id)),
        ),
        Request::RunCommandList { device_id } => tagged(
            "method"@,
            "run_command_list"@,
            "params"@,
            Map::<Seq<char>, JsonView>::empty()
                .insert("device_id"@, JsonView::Str(device_id)),
        ),
        Request::RunCommand { device_id, command_name } => tagged(
            "method"@,
            "run_command"@,
            "params"@,
            Map::<Seq<char>, JsonView>::empty()
                .insert("device_id"@, JsonView::Str(device_id))
                .insert("command_name"@, JsonView::Str(command_name)),
        ),
        Request::SetVolume { percent } => tagged(
            "method"@,
            "set_volume"@,
            "params"@,
            Map::<Seq<char>, JsonView>::empty()
                .insert("percent"@, JsonView::Int(percent as int)),
        ),
        Request::GetVolume => bare("method"@, "get_volume"@),
        Request::ShareText { device_id, text } => tagged(
            "method"@,
            "share_text"@,
            "params"@,
            Map::<Seq<char>, JsonView>::empty()
                .insert("device_id"@, JsonView::Str(device_id))
                .insert("text"@, JsonView::Str(text)),
        ),
        Request::ShareUrl { device_id, url } => tagged(
            "method"@,
            "share_url"@,
            "params"@,
            Map::<Seq<char>, JsonView>::empty()
                .insert("device_id"@, JsonView::Str(device_id))
                .insert("url"@, JsonView::Str(url)),
        ),
        Request::RequestBattery { device_id } => tagged(
            "method"@,
            "request_battery"@,
            "params"@,
            Map::<Seq<char>, JsonView>::empty()
                .insert("device_id"@, JsonView::Str(device_id)),
        ),
        Request::SendSms { device_id, number, text } => tagged(
            "method"@,
            "send_sms"@,
            "params"@,
            Map::<Seq<char>, JsonView>::empty()
                .insert("device_id"@, JsonView::Str(device_id))
                .insert("number"@, JsonView::Str(number))
                .insert("text"@, JsonView::Str(text)),
        ),
    }
}

/// The message that a document stands for, if it does.
pub open spec fn request_of(j: JsonView) -> Option<Request<Seq<char>>> {
    match envelope(j, "method"@, "params"@) {
        Some((name, content)) => request_named(name, content),
        None => None,
    }
}

/// The message with the given name and content, if there is one.
pub open spec fn request_named(name: Seq<char>, content: Option<JsonView>) -> Option<Request<Seq<char>>> {
    let c = content_or_null(content);
    if name == "daemon_info"@ {
        if c is Null {
            Some(Request::DaemonInfo)
        } else {
            None
        }
    } else if name == "device_list"@ {
        if c is Null {
            Some(Request::DeviceList)
        } else {
            None
        }
    } else if name == "device_pair"@ {
        match json::text_at(c, "device_id"@) {
            Some(device_id) => Some(Request::DevicePair { device_id }),
            None => None,
        }
    } else if name == "device_unpair"@ {
        match json::text_at(c, "device_id"@) {
            Some(device_id) => Some(Request::DeviceUnpair { device_id }),
            None => None,
        }
    } else if name == "plugin_list"@ {
        match json::text_at(c, "device_id"@) {
            Some(device_id) => Some(Request::PluginList { device_id }),
            None => None,
        }
    } else if name == "plugin_set_enabled"@ {
        match (
            json::text_at(c, "device_id"@),
            json::text_at(c, "plugin"@),
            json::flag_at(c, "enabled"@),
        ) {
            (Some(device_id), Some(plugin), Some(enabled)) => Some(
                Request::PluginSetEnabled { device_id, plugin, enabled },
            ),
            _ => None,
        }
    } else if name == "send_file"@ {
        match (
            json::text_at(c, "device_id"@),
            json::text_at(c, "path"@),
        ) {
            (Some(device_id), Some(path)) => Some(
                Request::SendFile { device_id, path },
            ),
            _ => None,
        }
    } else if name == "notification_list"@ {
        if c is Null {
            Some(Request::NotificationList)
        } else {
            None
        }
    } else if name == "notification_dismiss"@ {
        match json::text_at(c, "notification_id"@) {
            Some(notification_id) => Some(Request::NotificationDismiss { notification_id }),
            None => None,
        }
    } else if name == "clipboard_get"@ {
        if c is Null {
            Some(Request::ClipboardGet)
        } else {
            None
        }
    } else if name == "clipboard_set"@ {
        match json::text_at(c, "text"@) {
            Some(text) => Some(Request::ClipboardSet { text }),
            None => None,
        }
    } else if name == "ping"@ {
        if c is Null {
            Some(Request::Ping)
        } else {
            None
        }
    } else if name == "transfer_list"@ {
        if c is Null {
            Some(Request::TransferList)
        } else {
            None
        }
    } else if name == "transfer_cancel"@ {
        match json::text_at(c, "transfer_id"@) {
            Some(transfer_id) => Some(Request::TransferCancel { transfer_id }),
            None => None,
        }
    } else if name == "run_command_list"@ {
        match json::text_at(c, "device_id"@) {
            Some(device_id) => Some(Request::RunCommandList { device_id }),
            None => None,
        }
    } else if name == "run_command"@ {
        match (
            json::text_at(c, "device_id"@),
            json::text_at(c, "command_name"@),
        ) {
            (Some(device_id), Some(command_name)) => Some(
                Request::RunCommand { device_id, command_name },
            ),
            _ => None,
        }
    } else if name == "set_volume"@ {
        match tiny_count_at(c, "percent"@) {
            Some(percent) => Some(Request::SetVolume { percent }),
            None => None,
        }
    } else if name == "get_volume"@ {
        if c is Null {
            Some(Request::GetVolume)
        } else {
            None
        }
    } else if name == "share_text"@ {
        match (
            json::text_at(c, "device_id"@),
            json::text_at(c, "text"@),
        ) {
            (Some(device_id), Some(text)) => Some(
                Request::ShareText { device_id, text },
            ),
            _ => None,
        }
    } else if name == "share_url"@ {
        match (
            json::text_at(c, "device_id"@),
            json::text_at(c, "url"@),
        ) {
            (Some(device_id), Some(url)) => Some(
                Request::ShareUrl { device_id, url },
            ),
            _ => None,
        }
    } else if name == "request_battery"@ {
        match json::text_at(c, "device_id"@) {
            Some(device_id) => Some(Request::RequestBattery { device_id }),
            None => None,
        }
    } else if name == "send_sms"@ {
        match (
            json::text_at(c, "device_id"@),
            json::text_at(c, "number"@),
            json::text_at(c, "text"@),
        ) {
            (Some(device_id), Some(number), Some(text)) => Some(
                Request::SendSms { device_id, number, text },
            ),
            _ => None,
        }
    } else {
        None
    }
}

impl Request<String> {
    /// The document of this message.
    pub fn to_json(&self) -> (r: Json)
        ensures
            r@ == request_json(self@),
    {
        match self {
            Request::DaemonInfo => bare_document("method", "daemon_info"),
            Request::DeviceList => bare_document("method", "device_list"),
            Request::DevicePair { device_id } => {
                let content = Record::new()
                    .with("device_id", Json::text(device_id.as_str()));
                tagged_document("method", "device_pair", "params", content)
            },
            Request::DeviceUnpair { device_id } => {
                let content = Record::new()
                    .with("device_id", Json::text(device_id.as_str()));
                tagged_document("method", "device_unpair", "params", content)
            },
            Request::PluginList { device_id } => {
                let content = Record::new()
                    .with("device_id", Json::text(device_id.as_str()));
                tagged_document("method", "plugin_list", "params", content)
            },
            Request::PluginSetEnabled { device_id, plugin, enabled } => {
                let content = Record::new()
                    .with("device_id", Json::text(device_id.as_str()))
                    .with("plugin", Json::text(plugin.as_str()))
                    .with("enabled", Json::Bool(*enabled));
                tagged_document("method", "plugin_set_enabled", "params", content)
            },
            Request::SendFile { device_id, path } => {
                let content = Record::new()
                    .with("device_id", Json::text(device_id.as_str()))
                    .with("path", Json::text(path.as_str()));
                tagged_document("method", "send_file", "params", content)
            },
            Request::NotificationList => bare_document("method", "notification_list"),
            Request::NotificationDismiss { notification_id } => {
                let content = Record::new()
                    .with("notification_id", Json::text(notification_id.as_str()));
                tagged_document("method", "notification_dismiss", "params", content)
            },
            Request::ClipboardGet => bare_document("method", "clipboard_get"),
            Request::ClipboardSet { text } => {
                let content = Record::new()
                    .with("text", Json::text(text.as_str()));
                tagged_document("method", "clipboard_set", "params", content)
            },
            Request::Ping => bare_document("method", "ping"),
            Request::TransferList => bare_document("method", "transfer_list"),
            Request::TransferCancel { transfer_id } => {
                let content = Record::new()
                    .with("transfer_id", Json::text(transfer_id.as_str()));
                tagged_document("method", "transfer_cancel", "params", content)
            },
            Request::RunCommandList { device_id } => {
                let content = Record::new()
                    .with("device_id", Json::text(device_id.as_str()));
                tagged_document("method", "run_command_list", "params", content)
            },
            Request::RunCommand { device_id, command_name } => {
                let content = Record::new()
                    .with("device_id", Json::text(device_id.as_str()))
                    .with("command_name", Json::text(command_name.as_str()));
                tagged_document("method", "run_command", "params", content)
            },
            Request::SetVolume { percent } => {
                let content = Record::new()
                    .with("percent", Json::Uint(*percent as u64));
                tagged_document("method", "set_volume", "params", content)
            },
            Request::GetVolume => bare_document("method", "get_volume"),
            Request::ShareText { device_id, text } => {
                let content = Record::new()
                    .with("device_id", Json::text(device_id.as_str()))
                    .with("text", Json::text(text.as_str()));
                tagged_document("method", "share_text", "params", content)
            },
            Request::ShareUrl { device_id, url } => {
                let content = Record::new()
                    .with("device_id", Json::text(device_id.as_str()))
                    .with("url", Json::text(url.as_str()));
                tagged_document("method", "share_url", "params", content)
            },
            Request::RequestBattery { device_id } => {
                let content = Record::new()
                    .with("device_id", Json::text(device_id.as_str()));
                tagged_document("method", "request_battery", "params", content)
            },
            Request::SendSms { device_id, number, text } => {
                let content = Record::new()
                    .with("device_id", Json::text(device_id.as_str()))
                    .with("number", Json::text(number.as_str()))
                    .with("text", Json::text(text.as_str()));
                tagged_document("method", "send_sms", "params", content)
            },
        }
    }

    /// Reads the message that a document stands for.
    pub fn from_json(j: &Json) -> (r: Option<Request>)
        ensures
            match r {
                Some(m) => request_of(j@) == Some(m@),
                None => request_of(j@) is None,
            },
    {
        let (name, content) = match open_envelope(j, "method", "params") {
            Some(opened) => opened,
            None => {
                return None;
            },
        };
        let c = match content {
            Some(c) => c,
            None => &Json::Null,
        };
        let n = name.as_str();
        if text::same(n, "daemon_info") {
            if is_null(c) {
                Some(Request::DaemonInfo)
            } else {
                None
            }
        } else if text::same(n, "device_list") {
            if is_null(c) {
                Some(Request::DeviceList)
            } else {
                None
            }
        } else if text::same(n, "device_pair") {
            match owned(c.str_member("device_id")) {
                Some(device_id) => Some(Request::DevicePair { device_id }),
                None => None,
            }
        } else if text::same(n, "device_unpair") {
            match owned(c.str_member("device_id")) {
                Some(device_id) => Some(Request::DeviceUnpair { device_id }),
                None => None,
            }
        } else if text::same(n, "plugin_list") {
            match owned(c.str_member("device_id")) {
                Some(device_id) => Some(Request::PluginList { device_id }),
                None => None,
            }
        } else if text::same(n, "plugin_set_enabled") {
            match (
                owned(c.str_member("device_id")),
                owned(c.str_member("plugin")),
                c.bool_member("enabled"),
            ) {
                (Some(device_id), Some(plugin), Some(enabled)) => Some(
                    Request::PluginSetEnabled { device_id, plugin, enabled },
                ),
                _ => None,
            }
        } else if text::same(n, "send_file") {
            match (
                owned(c.str_member("device_id")),
                owned(c.str_member("path")),
            ) {
                (Some(device_id), Some(path)) => Some(
                    Request::SendFile { device_id, path },
                ),
                _ => None,
            }
        } else if text::same(n, "notification_list") {
            if is_null(c) {
                Some(Request::NotificationList)
            } else {
                None
            }
        } else if text::same(n, "notification_dismiss") {
            match owned(c.str_member("notification_id")) {
                Some(notification_id) => Some(Request::NotificationDismiss { notification_id }),
                None => None,
            }
        } else if text::same(n, "clipboard_get") {
            if is_null(c) {
                Some(Request::ClipboardGet)
            } else {
                None
            }
        } else if text::same(n, "clipboard_set") {
            match owned(c.str_member("text")) {
                Some(text) => Some(Request::ClipboardSet { text }),
                None => None,
            }
        } else if text::same(n, "ping") {
            if is_null(c) {
                Some(Request::Ping)
            } else {
                None
            }
        } else if text::same(n, "transfer_list") {
            if is_null(c) {
                Some(Request::TransferList)
            } else {
                None
            }
        } else if text::same(n, "transfer_cancel") {
            match owned(c.str_member("transfer_id")) {
                Some(transfer_id) => Some(Request::TransferCancel { transfer_id }),
                None => None,
            }
        } else if text::same(n, "run_command_list") {
            match owned(c.str_member("device_id")) {
                Some(device_id) => Some(Request::RunCommandList { device_id }),
                None => None,
            }
        } else if text::same(n, "run_command") {
            match (
                owned(c.str_member("device_id")),
                owned(c.str_member("command_name")),
            ) {
                (Some(device_id), Some(command_name)) => Some(
                    Request::RunCommand { device_id, command_name },
                ),
                _ => None,
            }
        } else if text::same(n, "set_volume") {
            match tiny_count(c, "percent") {
                Some(percent) => Some(Request::SetVolume { percent }),
                None => None,
            }
        } else if text::same(n, "get_volume") {
            if is_null(c) {
                Some(Request::GetVolume)
            } else {
                None
            }
        } else if text::same(n, "share_text") {
            match (
                owned(c.str_member("device_id")),
                owned(c.str_member("text")),
            ) {
                (Some(device_id), Some(text)) => Some(
                    Request::ShareText { device_id, text },
                ),
                _ => None,
            }
        } else if text::same(n, "share_url") {
            match (
                owned(c.str_member("device_id")),
                owned(c.str_member("url")),
            ) {
                (Some(device_id), Some(url)) => Some(
                    Request::ShareUrl { device_id, url },
                ),
                _ => None,
            }
        } else if text::same(n, "request_battery") {
            match owned(c.str_member("device_id")) {
                Some(device_id) => Some(Request::RequestBattery { device_id }),
                None => None,
            }
        } else if text::same(n, "send_sms") {
            match (
                owned(c.str_member("device_id")),
                owned(c.str_member("number")),
                owned(c.str_member("text")),
            ) {
                (Some(device_id), Some(number), Some(text)) => Some(
                    Request::SendSms { device_id, number, text },
                ),
                _ => None,
            }
        } else {
            None
        }
    }
}

proof fn lemma_request_names()
    ensures
        "daemon_info"@ != "device_list"@,
        "daemon_info"@ != "device_pair"@,
        "daemon_info"@ != "device_unpair"@,
        "daemon_info"@ != "plugin_list"@,
        "daemon_info"@ != "plugin_set_enabled"@,
        "daemon_info"@ != "send_file"@,
        "daemon_info"@ != "notification_list"@,
        "daemon_info"@ != "notification_dismiss"@,
        "daemon_info"@ != "clipboard_get"@,
        "daemon_info"@ != "clipboard_set"@,
        "daemon_info"@ != "ping"@,
        "daemon_info"@ != "transfer_list"@,
        "daemon_info"@ != "transfer_cancel"@,
        "daemon_info"@ != "run_command_list"@,
        "daemon_info"@ != "run_command"@,
        "daemon_info"@ != "set_volume"@,
        "daemon_info"@ != "get_volume"@,
        "daemon_info"@ != "share_text"@,
        "daemon_info"@ != "share_url"@,
        "daemon_info"@ != "request_battery"@,
        "daemon_info"@ != "send_sms"@,
        "device_list"@ != "device_pair"@,
        "device_list"@ != "device_unpair"@,
        "device_list"@ != "plugin_list"@,
        "device_list"@ != "plugin_set_enabled"@,
        "device_list"@ != "send_file"@,
        "device_list"@ != "notification_list"@,
        "device_list"@ != "notification_dismiss"@,
        "device_list"@ != "clipboard_get"@,
        "device_list"@ != "clipboard_set"@,
        "device_list"@ != "ping"@,
        "device_list"@ != "transfer_list"@,
        "device_list"@ != "transfer_cancel"@,
        "device_list"@ != "run_command_list"@,
        "device_list"@ != "run_command"@,
        "device_list"@ != "set_volume"@,
        "device_list"@ != "get_volume"@,
        "device_list"@ != "share_text"@,
        "device_list"@ != "share_url"@,
        "device_list"@ != "request_battery"@,
        "device_list"@ != "send_sms"@,
        "device_pair"@ != "device_unpair"@,
        "device_pair"@ != "plugin_list"@,
        "device_pair"@ != "plugin_set_enabled"@,
        "device_pair"@ != "send_file"@,
        "device_pair"@ != "notification_list"@,
        "device_pair"@ != "notification_dismiss"@,
        "device_pair"@ != "clipboard_get"@,
        "device_pair"@ != "clipboard_set"@,
        "device_pair"@ != "ping"@,
        "device_pair"@ != "transfer_list"@,
        "device_pair"@ != "transfer_cancel"@,
        "device_pair"@ != "run_command_list"@,
        "device_pair"@ != "run_command"@,
        "device_pair"@ != "set_volume"@,
        "device_pair"@ != "get_volume"@,
        "device_pair"@ != "share_text"@,
        "device_pair"@ != "share_url"@,
        "device_pair"@ != "request_battery"@,
        "device_pair"@ != "send_sms"@,
        "device_unpair"@ != "plugin_list"@,
        "device_unpair"@ != "plugin_set_enabled"@,
        "device_unpair"@ != "send_file"@,
        "device_unpair"@ != "notification_list"@,
        "device_unpair"@ != "notification_dismiss"@,
        "device_unpair"@ != "clipboard_get"@,
        "device_unpair"@ != "clipboard_set"@,
        "device_unpair"@ != "ping"@,
        "device_unpair"@ != "transfer_list"@,
        "device_unpair"@ != "transfer_cancel"@,
        "device_unpair"@ != "run_command_list"@,
        "device_unpair"@ != "run_command"@,
        "device_unpair"@ != "set_volume"@,
        "device_unpair"@ != "get_volume"@,
        "device_unpair"@ != "share_text"@,
        "device_unpair"@ != "share_url"@,
        "device_unpair"@ != "request_battery"@,
        "device_unpair"@ != "send_sms"@,
        "plugin_list"@ != "plugin_set_enabled"@,
        "plugin_list"@ != "send_file"@,
        "plugin_list"@ != "notification_list"@,
        "plugin_list"@ != "notification_dismiss"@,
        "plugin_list"@ != "clipboard_get"@,
        "plugin_list"@ != "clipboard_set"@,
        "plugin_list"@ != "ping"@,
        "plugin_list"@ != "transfer_list"@,
        "plugin_list"@ != "transfer_cancel"@,
        "plugin_list"@ != "run_command_list"@,
        "plugin_list"@ != "run_command"@,
        "plugin_list"@ != "set_volume"@,
        "plugin_list"@ != "get_volume"@,
        "plugin_list"@ != "share_text"@,
        "plugin_list"@ != "share_url"@,
        "plugin_list"@ != "request_battery"@,
        "plugin_list"@ != "send_sms"@,
        "plugin_set_enabled"@ != "send_file"@,
        "plugin_set_enabled"@ != "notification_list"@,
        "plugin_set_enabled"@ != "notification_dismiss"@,
        "plugin_set_enabled"@ != "clipboard_get"@,
        "plugin_set_enabled"@ != "clipboard_set"@,
        "plugin_set_enabled"@ != "ping"@,
        "plugin_set_enabled"@ != "transfer_list"@,
        "plugin_set_enabled"@ != "transfer_cancel"@,
        "plugin_set_enabled"@ != "run_command_list"@,
        "plugin_set_enabled"@ != "run_command"@,
        "plugin_set_enabled"@ != "set_volume"@,
        "plugin_set_enabled"@ != "get_volume"@,
        "plugin_set_enabled"@ != "share_text"@,
        "plugin_set_enabled"@ != "share_url"@,
        "plugin_set_enabled"@ != "request_battery"@,
        "plugin_set_enabled"@ != "send_sms"@,
        "send_file"@ != "notification_list"@,
        "send_file"@ != "notification_dismiss"@,
        "send_file"@ != "clipboard_get"@,
        "send_file"@ != "clipboard_set"@,
        "send_file"@ != "ping"@,
        "send_file"@ != "transfer_list"@,
        "send_file"@ != "transfer_cancel"@,
        "send_file"@ != "run_command_list"@,
        "send_file"@ != "run_command"@,
        "send_file"@ != "set_volume"@,
        "send_file"@ != "get_volume"@,
        "send_file"@ != "share_text"@,
        "send_file"@ != "share_url"@,
        "send_file"@ != "request_battery"@,
        "send_file"@ != "send_sms"@,
        "notification_list"@ != "notification_dismiss"@,
        "notification_list"@ != "clipboard_get"@,
        "notification_list"@ != "clipboard_set"@,
        "notification_list"@ != "ping"@,
        "notification_list"@ != "transfer_list"@,
        "notification_list"@ != "transfer_cancel"@,
        "notification_list"@ != "run_command_list"@,
        "notification_list"@ != "run_command"@,
        "notification_list"@ != "set_volume"@,
        "notification_list"@ != "get_volume"@,
        "notification_list"@ != "share_text"@,
        "notification_list"@ != "share_url"@,
        "notification_list"@ != "request_battery"@,
        "notification_list"@ != "send_sms"@,
        "notification_dismiss"@ != "clipboard_get"@,
        "notification_dismiss"@ != "clipboard_set"@,
        "notification_dismiss"@ != "ping"@,
        "notification_dismiss"@ != "transfer_list"@,
        "notification_dismiss"@ != "transfer_cancel"@,
        "notification_dismiss"@ != "run_command_list"@,
        "notification_dismiss"@ != "run_command"@,
        "notification_dismiss"@ != "set_volume"@,
        "notification_dismiss"@ != "get_volume"@,
        "notification_dismiss"@ != "share_text"@,
        "notification_dismiss"@ != "share_url"@,
        "notification_dismiss"@ != "request_battery"@,
        "notification_dismiss"@ != "send_sms"@,
        "clipboard_get"@ != "clipboard_set"@,
        "clipboard_get"@ != "ping"@,
        "clipboard_get"@ != "transfer_list"@,
        "clipboard_get"@ != "transfer_cancel"@,
        "clipboard_get"@ != "run_command_list"@,
        "clipboard_get"@ != "run_command"@,
        "clipboard_get"@ != "set_volume"@,
        "clipboard_get"@ != "get_volume"@,
        "clipboard_get"@ != "share_text"@,
        "clipboard_get"@ != "share_url"@,
        "clipboard_get"@ != "request_battery"@,
        "clipboard_get"@ != "send_sms"@,
        "clipboard_set"@ != "ping"@,
        "clipboard_set"@ != "transfer_list"@,
        "clipboard_set"@ != "transfer_cancel"@,
        "clipboard_set"@ != "run_command_list"@,
        "clipboard_set"@ != "run_command"@,
        "clipboard_set"@ != "set_volume"@,
        "clipboard_set"@ != "get_volume"@,
        "clipboard_set"@ != "share_text"@,
        "clipboard_set"@ != "share_url"@,
        "clipboard_set"@ != "request_battery"@,
        "clipboard_set"@ != "send_sms"@,
        "ping"@ != "transfer_list"@,
        "ping"@ != "transfer_cancel"@,
        "ping"@ != "run_command_list"@,
        "ping"@ != "run_command"@,
        "ping"@ != "set_volume"@,
        "ping"@ != "get_volume"@,
        "ping"@ != "share_text"@,
        "ping"@ != "share_url"@,
        "ping"@ != "request_battery"@,
        "ping"@ != "send_sms"@,
        "transfer_list"@ != "transfer_cancel"@,
        "transfer_list"@ != "run_command_list"@,
        "transfer_list"@ != "run_command"@,
        "transfer_list"@ != "set_volume"@,
        "transfer_list"@ != "get_volume"@,
        "transfer_list"@ != "share_text"@,
        "transfer_list"@ != "share_url"@,
        "transfer_list"@ != "request_battery"@,
        "transfer_list"@ != "send_sms"@,
        "transfer_cancel"@ != "run_command_list"@,
        "transfer_cancel"@ != "run_command"@,
        "transfer_cancel"@ != "set_volume"@,
        "transfer_cancel"@ != "get_volume"@,
        "transfer_cancel"@ != "share_text"@,
        "transfer_cancel"@ != "share_url"@,
        "transfer_cancel"@ != "request_battery"@,
        "transfer_cancel"@ != "send_sms"@,
        "run_command_list"@ != "run_command"@,
        "run_command_list"@ != "set_volume"@,
        "run_command_list"@ != "get_volume"@,
        "run_command_list"@ != "share_text"@,
        "run_command_list"@ != "share_url"@,
        "run_command_list"@ != "request_battery"@,
        "run_command_list"@ != "send_sms"@,
        "run_command"@ != "set_volume"@,
        "run_command"@ != "get_volume"@,
        "run_command"@ != "share_text"@,
        "run_command"@ != "share_url"@,
        "run_command"@ != "request_battery"@,
        "run_command"@ != "send_sms"@,
        "set_volume"@ != "get_volume"@,
        "set_volume"@ != "share_text"@,
        "set_volume"@ != "share_url"@,
        "set_volume"@ != "request_battery"@,
        "set_volume"@ != "send_sms"@,
        "get_volume"@ != "share_text"@,
        "get_volume"@ != "share_url"@,
        "get_volume"@ != "request_battery"@,
        "get_volume"@ != "send_sms"@,
        "share_text"@ != "share_url"@,
        "share_text"@ != "request_battery"@,
        "share_text"@ != "send_sms"@,
        "share_url"@ != "request_battery"@,
        "share_url"@ != "send_sms"@,
        "request_battery"@ != "send_sms"@,
{
    reveal_strlit("daemon_info");
    reveal_strlit("device_list");
    reveal_strlit("device_pair");
    reveal_strlit("device_unpair");
    reveal_strlit("plugin_list");
    reveal_strlit("plugin_set_enabled");
    reveal_strlit("send_file");
    reveal_strlit("notification_list");
    reveal_strlit("notification_dismiss");
    reveal_strlit("clipboard_get");
    reveal_strlit("clipboard_set");
    reveal_strlit("ping");
    reveal_strlit("transfer_list");
    reveal_strlit("transfer_cancel");
    reveal_strlit("run_command_list");
    reveal_strlit("run_command");
    reveal_strlit("set_volume");
    reveal_strlit("get_volume");
    reveal_strlit("share_text");
    reveal_strlit("share_url");
    reveal_strlit("request_battery");
    reveal_strlit("send_sms");
    assert("daemon_info"@.len() == 11);
    assert("device_list"@.len() == 11);
    assert("device_pair"@.len() == 11);
    assert("device_unpair"@.len() == 13);
    assert("plugin_list"@.len() == 11);
    assert("plugin_set_enabled"@.len() == 18);
    assert("send_file"@.len() == 9);
    assert("notification_list"@.len() == 17);
    assert("notification_dismiss"@.len() == 20);
    assert("clipboard_get"@.len() == 13);
    assert("clipboard_set"@.len() == 13);
    assert("ping"@.len() == 4);
    assert("transfer_list"@.len() == 13);
    assert("transfer_cancel"@.len() == 15);
    assert("run_command_list"@.len() == 16);
    assert("run_command"@.len() == 11);
    assert("set_volume"@.len() == 10);
    assert("get_volume"@.len() == 10);
    assert("share_text"@.len() == 10);
    assert("share_url"@.len() == 9);
    assert("request_battery"@.len() == 15);
    assert("send_sms"@.len() == 8);
    assert("daemon_info"@[1] != "device_list"@[1]);
    assert("daemon_info"@[1] != "device_pair"@[1]);
    assert("daemon_info"@[0] != "plugin_list"@[0]);
    assert("daemon_info"@[0] != "run_command"@[0]);
    assert("device_list"@[7] != "device_pair"@[7]);
    assert("device_list"@[0] != "plugin_list"@[0]);
    assert("device_list"@[0] != "run_command"@[0]);
    assert("device_pair"@[0] != "plugin_list"@[0]);
    assert("device_pair"@[0] != "run_command"@[0]);
    assert("device_unpair"@[0] != "clipboard_get"@[0]);
    assert("device_unpair"@[0] != "clipboard_set"@[0]);
    assert("device_unpair"@[0] != "transfer_list"@[0]);
    assert("plugin_list"@[0] != "run_command"@[0]);
    assert("send_file"@[1] != "share_url"@[1]);
    assert("clipboard_get"@[10] != "clipboard_set"@[10]);
    assert("clipboard_get"@[0] != "transfer_list"@[0]);
    assert("clipboard_set"@[0] != "transfer_list"@[0]);
    assert("transfer_cancel"@[0] != "request_battery"@[0]);
    assert("set_volume"@[0] != "get_volume"@[0]);
    assert("set_volume"@[1] != "share_text"@[1]);
    assert("get_volume"@[0] != "share_text"@[0]);
}

proof fn lemma_request_fields()
    ensures
        "device_id"@ != "command_name"@,
        "device_id"@ != "enabled"@,
        "device_id"@ != "number"@,
        "device_id"@ != "path"@,
        "device_id"@ != "plugin"@,
        "device_id"@ != "text"@,
        "device_id"@ != "url"@,
        "number"@ != "text"@,
        "plugin"@ != "enabled"@,
{
    reveal_strlit("command_name");
    reveal_strlit("device_id");
    reveal_strlit("enabled");
    reveal_strlit("number");
    reveal_strlit("path");
    reveal_strlit("plugin");
    reveal_strlit("text");
    reveal_strlit("url");
    assert("command_name"@.len() == 12);
    assert("device_id"@.len() == 9);
    assert("enabled"@.len() == 7);
    assert("number"@.len() == 6);
    assert("path"@.len() == 4);
    assert("plugin"@.len() == 6);
    assert("text"@.len() == 4);
    assert("url"@.len() == 3);
}

/// Reading the document of a message gives the message back.
pub proof fn law_request_round_trip(m: Request<Seq<char>>)
    ensures
        request_of(request_json(m)) == Some(m),
{
    lemma_request_names();
    lemma_request_fields();
    lemma_envelope_names();
}

/// The document of an event.
pub open spec fn event_json(m: ServerEvent<Seq<char>>) -> JsonView {
    match m {
        ServerEvent::Hello { version, app, pid } => tagged(
            "event"@,
            "hello"@,
            "data"@,
            Map::<Seq<char>, JsonView>::empty()
                .insert("version"@, JsonView::Int(version as int))
                .insert("app"@, JsonView::Str(app))
                .insert("pid"@, JsonView::Int(pid as int)),
        ),
        ServerEvent::DeviceFound { id, name } => tagged(
            "event"@,
            "device_found"@,
            "data"@,
            Map::<Seq<char>, JsonView>::empty()
                .insert("id"@, JsonView::Str(id))
                .insert("name"@, JsonView::Str(name)),
        ),
        ServerEvent::DeviceLost { id } => tagged(
            "event"@,
            "device_lost"@,
            "data"@,
            Map::<Seq<char>, JsonView>::empty()
                .insert("id"@, JsonView::Str(id)),
        ),
        ServerEvent::DeviceStateChanged { id, state } => tagged(
            "event"@,
            "device_state_changed"@,
            "data"@,
            Map::<Seq<char>, JsonView>::empty()
                .insert("id"@, JsonView::Str(id))
                .insert("state"@, JsonView::Str(state)),
        ),
        ServerEvent::TransferProgress { id, bytes_done, bytes_total } => tagged(
            "event"@,
            "transfer_progress"@,
            "data"@,
            Map::<Seq<char>, JsonView>::empty()
                .insert("id"@, JsonView::Str(id))
                .insert("bytes_done"@, JsonView::Int(bytes_done as int))
                .insert("bytes_total"@, JsonView::Int(bytes_total as int)),
        ),
        ServerEvent::TransferAdded { id, device_id, direction, file_name, total } => tagged(
            "event"@,
            "transfer_added"@,
            "data"@,
            Map::<Seq<char>, JsonView>::empty()
                .insert("id"@, JsonView::Str(id))
                .insert("device_id"@, JsonView::Str(device_id))
                .insert("direction"@, JsonView::Str(direction))
                .insert("file_name"@, JsonView::Str(file_name))
                .insert("total"@, JsonView::Int(total as int)),
        ),
        ServerEvent::TransferFinished { id } => tagged(
            "event"@,
            "transfer_finished"@,
            "data"@,
            Map::<Seq<char>, JsonView>::empty()
                .insert("id"@, JsonView::Str(id)),
        ),
        ServerEvent::TransferFailed { id, reason } => tagged(
            "event"@,
            "transfer_failed"@,
            "data"@,
            Map::<Seq<char>, JsonView>::empty()
                .insert("id"@, JsonView::Str(id))
                .insert("reason"@, JsonView::Str(reason)),
        ),
        ServerEvent::NotificationReceived { id, app, title, body } => tagged(
            "event"@,
            "notification_received"@,
            "data"@,
            Map::<Seq<char>, JsonView>::empty()
                .insert("id"@, JsonView::Str(id))
                .insert("app"@, JsonView::Str(app))
                .insert("title"@, JsonView::Str(title))
                .insert("body"@, JsonView::Str(body)),
        ),
        ServerEvent::ClipboardUpdated { text } => tagged(
            "event"@,
            "clipboard_updated"@,
            "data"@,
            Map::<Seq<char>, JsonView>::empty()
                .insert("text"@, JsonView::Str(text)),
        ),
        ServerEvent::LogRecord { level, msg } => tagged(
            "event"@,
            "log_record"@,
            "data"@,
            Map::<Seq<char>, JsonView>::empty()
                .insert("level"@, JsonView::Str(level))
                .insert("msg"@, JsonView::Str(msg)),
        ),
        ServerEvent::BatteryChanged { device_id, level, charging } => tagged(
            "event"@,
            "battery_changed"@,
            "data"@,
            Map::<Seq<char>, JsonView>::empty()
                .insert("device_id"@, JsonView::Str(device_id))
                .insert("level"@, JsonView::Int(level as int))
                .insert("charging"@, JsonView::Bool(charging)),
        ),
        ServerEvent::TelephonyEvent { device_id, state, number } => tagged(
            "event"@,
            "telephony_event"@,
            "data"@,
            Map::<Seq<char>, JsonView>::empty()
                .insert("device_id"@, JsonView::Str(device_id))
                .insert("state"@, JsonView::Str(state))
                .insert("number"@, optional_json(number)),
        ),
        ServerEvent::VolumeChanged { percent, muted } => tagged(
            "event"@,
            "volume_changed"@,
            "data"@,
            Map::<Seq<char>, JsonView>::empty()
                .insert("percent"@, JsonView::Int(percent as int))
                .insert("muted"@, JsonView::Bool(muted)),
        ),
        ServerEvent::CommandResult { device_id, name, success, output } => tagged(
            "event"@,
            "command_result"@,
            "data"@,
            Map::<Seq<char>, JsonView>::empty()
                .insert("device_id"@, JsonView::Str(device_id))
                .insert("name"@, JsonView::Str(name))
                .insert("success"@, JsonView::Bool(success))
                .insert("output"@, JsonView::Str(output)),
        ),
        ServerEvent::DaemonShutdown => bare("event"@, "daemon_shutdown"@),
    }
}

/// The message that a document stands for, if it does.
pub open spec fn event_of(j: JsonView) -> Option<ServerEvent<Seq<char>>> {
    match envelope(j, "event"@, "data"@) {
        Some((name, content)) => event_named(name, content),
        None => None,
    }
}

/// The message with the given name and content, if there is one.
pub open spec fn event_named(name: Seq<char>, content: Option<JsonView>) -> Option<ServerEvent<Seq<char>>> {
    let c = content_or_null(content);
    if name == "hello"@ {
        match (
            small_count_at(c, "version"@),
            json::text_at(c, "app"@),
            small_count_at(c, "pid"@),
        ) {
            (Some(version), Some(app), Some(pid)) => Some(
                ServerEvent::Hello { version, app, pid },
            ),
            _ => None,
        }
    } else if name == "device_found"@ {
        match (
            json::text_at(c, "id"@),
            json::text_at(c, "name"@),
        ) {
            (Some(id), Some(name)) => Some(
                ServerEvent::DeviceFound { id, name },
            ),
            _ => None,
        }
    } else if name == "device_lost"@ {
        match json::text_at(c, "id"@) {
            Some(id) => Some(ServerEvent::DeviceLost { id }),
            None => None,
        }
    } else if name == "device_state_changed"@ {
        match (
            json::text_at(c, "id"@),
            json::text_at(c, "state"@),
        ) {
            (Some(id), Some(state)) => Some(
                ServerEvent::DeviceStateChanged { id, state },
            ),
            _ => None,
        }
    } else if name == "transfer_progress"@ {
        match (
            json::text_at(c, "id"@),
            json::count_at(c, "bytes_done"@),
            json::count_at(c, "bytes_total"@),
        ) {
            (Some(id), Some(bytes_done), Some(bytes_total)) => Some(
                ServerEvent::TransferProgress { id, bytes_done, bytes_total },
            ),
            _ => None,
        }
    } else if name == "transfer_added"@ {
        match (
            json::text_at(c, "id"@),
            json::text_at(c, "device_id"@),
            json::text_at(c, "direction"@),
            json::text_at(c, "file_name"@),
            json::count_at(c, "total"@),
        ) {
            (Some(id), Some(device_id), Some(direction), Some(file_name), Some(total)) => Some(
                ServerEvent::TransferAdded { id, device_id, direction, file_name, total },
            ),
            _ => None,
        }
    } else if name == "transfer_finished"@ {
        match json::text_at(c, "id"@) {
            Some(id) => Some(ServerEvent::TransferFinished { id }),
            None => None,
        }
    } else if name == "transfer_failed"@ {
        match (
            json::text_at(c, "id"@),
            json::text_at(c, "reason"@),
        ) {
            (Some(id), Some(reason)) => Some(
                ServerEvent::TransferFailed { id, reason },
            ),
            _ => None,
        }
    } else if name == "notification_received"@ {
        match (
            json::text_at(c, "id"@),
            json::text_at(c, "app"@),
            json::text_at(c, "title"@),
            json::text_at(c, "body"@),
        ) {
            (Some(id), Some(app), Some(title), Some(body)) => Some(
                ServerEvent::NotificationReceived { id, app, title, body },
            ),
            _ => None,
        }
    } else if name == "clipboard_updated"@ {
        match json::text_at(c, "text"@) {
            Some(text) => Some(ServerEvent::ClipboardUpdated { text }),
            None => None,
        }
    } else if name == "log_record"@ {
        match (
            json::text_at(c, "level"@),
            json::text_at(c, "msg"@),
        ) {
            (Some(level), Some(msg)) => Some(
                ServerEvent::LogRecord { level, msg },
            ),
            _ => None,
        }
    } else if name == "battery_changed"@ {
        match (
            json::text_at(c, "device_id"@),
            tiny_count_at(c, "level"@),
            json::flag_at(c, "charging"@),
        ) {
            (Some(device_id), Some(level), Some(charging)) => Some(
                ServerEvent::BatteryChanged { device_id, level, charging },
            ),
            _ => None,
        }
    } else if name == "telephony_event"@ {
        match (
            json::text_at(c, "device_id"@),
            json::text_at(c, "state"@),
            optional_text_at(c, "number"@),
        ) {
            (Some(device_id), Some(state), Some(number)) => Some(
                ServerEvent::TelephonyEvent { device_id, state, number },
            ),
            _ => None,
        }
    } else if name == "volume_changed"@ {
        match (
            tiny_count_at(c, "percent"@),
            json::flag_at(c, "muted"@),
        ) {
            (Some(percent), Some(muted)) => Some(
                ServerEvent::VolumeChanged { percent, muted },
            ),
            _ => None,
        }
    } else if name == "command_result"@ {
        match (
            json::text_at(c, "device_id"@),
            json::text_at(c, "name"@),
            json::flag_at(c, "success"@),
            json::text_at(c, "output"@),
        ) {
            (Some(device_id), Some(name), Some(success), Some(output)) => Some(
                ServerEvent::CommandResult { device_id, name, success, output },
            ),
            _ => None,
        }
    } else if name == "daemon_shutdown"@ {
        if c is Null {
            Some(ServerEvent::DaemonShutdown)
        } else {
            None
        }
    } else {
        None
    }
}

impl ServerEvent<String> {
    /// The document of this message.
    pub fn to_json(&self) -> (r: Json)
        ensures
            r@ == event_json(self@),
    {
        match self {
            ServerEvent::Hello { version, app, pid } => {
                let content = Record::new()
                    .with("version", Json::Uint(*version as u64))
                    .with("app", Json::text(app.as_str()))
                    .with("pid", Json::Uint(*pid as u64));
                tagged_document("event", "hello", "data", content)
            },
            ServerEvent::DeviceFound { id, name } => {
                let content = Record::new()
                    .with("id", Json::text(id.as_str()))
                    .with("name", Json::text(name.as_str()));
                tagged_document("event", "device_found", "data", content)
            },
            ServerEvent::DeviceLost { id } => {
                let content = Record::new()
                    .with("id", Json::text(id.as_str()));
                tagged_document("event", "device_lost", "data", content)
            },
            ServerEvent::DeviceStateChanged { id, state } => {
                let content = Record::new()
                    .with("id", Json::text(id.as_str()))
                    .with("state", Json::text(state.as_str()));
                tagged_document("event", "device_state_changed", "data", content)
            },
            ServerEvent::TransferProgress { id, bytes_done, bytes_total } => {
                let content = Record::new()
                    .with("id", Json::text(id.as_str()))
                    .with("bytes_done", Json::Uint(*bytes_done))
                    .with("bytes_total", Json::Uint(*bytes_total));
                tagged_document("event", "transfer_progress", "data", content)
            },
            ServerEvent::TransferAdded { id, device_id, direction, file_name, total } => {
                let content = Record::new()
                    .with("id", Json::text(id.as_str()))
                    .with("device_id", Json::text(device_id.as_str()))
                    .with("direction", Json::text(direction.as_str()))
                    .with("file_name", Json::text(file_name.as_str()))
                    .with("total", Json::Uint(*total));
                tagged_document("event", "transfer_added", "data", content)
            },
            ServerEvent::TransferFinished { id } => {
                let content = Record::new()
                    .with("id", Json::text(id.as_str()));
                tagged_document("event", "transfer_finished", "data", content)
            },
            ServerEvent::TransferFailed { id, reason } => {
                let content = Record::new()
                    .with("id", Json::text(id.as_str()))
                    .with("reason", Json::text(reason.as_str()));
                tagged_document("event", "transfer_failed", "data", content)
            },
            ServerEvent::NotificationReceived { id, app, title, body } => {
                let content = Record::new()
                    .with("id", Json::text(id.as_str()))
                    .with("app", Json::text(app.as_str()))
                    .with("title", Json::text(title.as_str()))
                    .with("body", Json::text(body.as_str()));
                tagged_document("event", "notification_received", "data", content)
            },
            ServerEvent::ClipboardUpdated { text } => {
                let content = Record::new()
                    .with("text", Json::text(text.as_str()));
                tagged_document("event", "clipboard_updated", "data", content)
            },
            ServerEvent::LogRecord { level, msg } => {
                let content = Record::new()
                    .with("level", Json::text(level.as_str()))
                    .with("msg", Json::text(msg.as_str()));
                tagged_document("event", "log_record", "data", content)
            },
            ServerEvent::BatteryChanged { device_id, level, charging } => {
                let content = Record::new()
                    .with("device_id", Json::text(device_id.as_str()))
                    .with("level", Json::Uint(*level as u64))
                    .with("charging", Json::Bool(*charging));
                tagged_document("event", "battery_changed", "data", content)
            },
            ServerEvent::TelephonyEvent { device_id, state, number } => {
                let content = Record::new()
                    .with("device_id", Json::text(device_id.as_str()))
                    .with("state", Json::text(state.as_str()))
                    .with("number", optional_document(number));
                tagged_document("event", "telephony_event", "data", content)
            },
            ServerEvent::VolumeChanged { percent, muted } => {
                let content = Record::new()
                    .with("percent", Json::Uint(*percent as u64))
                    .with("muted", Json::Bool(*muted));
                tagged_document("event", "volume_changed", "data", content)
            },
            ServerEvent::CommandResult { device_id, name, success, output } => {
                let content = Record::new()
                    .with("device_id", Json::text(device_id.as_str()))
                    .with("name", Json::text(name.as_str()))
                    .with("success", Json::Bool(*success))
                    .with("output", Json::text(output.as_str()));
                tagged_document("event", "command_result", "data", content)
            },
            ServerEvent::DaemonShutdown => bare_document("event", "daemon_shutdown"),
        }
    }

    /// Reads the message that a document stands for.
    pub fn from_json(j: &Json) -> (r: Option<ServerEvent>)
        ensures
            match r {
                Some(m) => event_of(j@) == Some(m@),
                None => event_of(j@) is None,
            },
    {
        let (name, content) = match open_envelope(j, "event", "data") {
            Some(opened) => opened,
            None => {
                return None;
            },
        };
        let c = match content {
            Some(c) => c,
            None => &Json::Null,
        };
        let n = name.as_str();
        if text::same(n, "hello") {
            match (
                small_count(c, "version"),
                owned(c.str_member("app")),
                small_count(c, "pid"),
            ) {
                (Some(version), Some(app), Some(pid)) => Some(
                    ServerEvent::Hello { version, app, pid },
                ),
                _ => None,
            }
        } else if text::same(n, "device_found") {
            match (
                owned(c.str_member("id")),
                owned(c.str_member("name")),
            ) {
                (Some(id), Some(name)) => Some(
                    ServerEvent::DeviceFound { id, name },
                ),
                _ => None,
            }
        } else if text::same(n, "device_lost") {
            match owned(c.str_member("id")) {
                Some(id) => Some(ServerEvent::DeviceLost { id }),
                None => None,
            }
        } else if text::same(n, "device_state_changed") {
            match (
                owned(c.str_member("id")),
                owned(c.str_member("state")),
            ) {
                (Some(id), Some(state)) => Some(
                    ServerEvent::DeviceStateChanged { id, state },
                ),
                _ => None,
            }
        } else if text::same(n, "transfer_progress") {
            match (
                owned(c.str_member("id")),
                c.u64_member("bytes_done"),
                c.u64_member("bytes_total"),
            ) {
                (Some(id), Some(bytes_done), Some(bytes_total)) => Some(
                    ServerEvent::TransferProgress { id, bytes_done, bytes_total },
                ),
                _ => None,
            }
        } else if text::same(n, "transfer_added") {
            match (
                owned(c.str_member("id")),
                owned(c.str_member("device_id")),
                owned(c.str_member("direction")),
                owned(c.str_member("file_name")),
                c.u64_member("total"),
            ) {
                (Some(id), Some(device_id), Some(direction), Some(file_name), Some(total)) => Some(
                    ServerEvent::TransferAdded { id, device_id, direction, file_name, total },
                ),
                _ => None,
            }
        } else if text::same(n, "transfer_finished") {
            match owned(c.str_member("id")) {
                Some(id) => Some(ServerEvent::TransferFinished { id }),
                None => None,
            }
        } else if text::same(n, "transfer_failed") {
            match (
                owned(c.str_member("id")),
                owned(c.str_member("reason")),
            ) {
                (Some(id), Some(reason)) => Some(
                    ServerEvent::TransferFailed { id, reason },
                ),
                _ => None,
            }
        } else if text::same(n, "notification_received") {
            match (
                owned(c.str_member("id")),
                owned(c.str_member("app")),
                owned(c.str_member("title")),
                owned(c.str_member("body")),
            ) {
                (Some(id), Some(app), Some(title), Some(body)) => Some(
                    ServerEvent::NotificationReceived { id, app, title, body },
                ),
                _ => None,
            }
        } else if text::same(n, "clipboard_updated") {
            match owned(c.str_member("text")) {
                Some(text) => Some(ServerEvent::ClipboardUpdated { text }),
                None => None,
            }
        } else if text::same(n, "log_record") {
            match (
                owned(c.str_member("level")),
                owned(c.str_member("msg")),
            ) {
                (Some(level), Some(msg)) => Some(
                    ServerEvent::LogRecord { level, msg },
                ),
                _ => None,
            }
        } else if text::same(n, "battery_changed") {
            match (
                owned(c.str_member("device_id")),
                tiny_count(c, "level"),
                c.bool_member("charging"),
            ) {
                (Some(device_id), Some(level), Some(charging)) => Some(
                    ServerEvent::BatteryChanged { device_id, level, charging },
                ),
                _ => None,
            }
        } else if text::same(n, "telephony_event") {
            match (
                owned(c.str_member("device_id")),
                owned(c.str_member("state")),
                optional_member(c, "number"),
            ) {
                (Some(device_id), Some(state), Some(number)) => Some(
                    ServerEvent::TelephonyEvent { device_id, state, number },
                ),
                _ => None,
            }
        } else if text::same(n, "volume_changed") {
            match (
                tiny_count(c, "percent"),
                c.bool_member("muted"),
            ) {
                (Some(percent), Some(muted)) => Some(
                    ServerEvent::VolumeChanged { percent, muted },
                ),
                _ => None,
            }
        } else if text::same(n, "command_result") {
            match (
                owned(c.str_member("device_id")),
                owned(c.str_member("name")),
                c.bool_member("success"),
                owned(c.str_member("output")),
            ) {
                (Some(device_id), Some(name), Some(success), Some(output)) => Some(
                    ServerEvent::CommandResult { device_id, name, success, output },
                ),
                _ => None,
            }
        } else if text::same(n, "daemon_shutdown") {
            if is_null(c) {
                Some(ServerEvent::DaemonShutdown)
            } else {
                None
            }
        } else {
            None
        }
    }
}

proof fn lemma_event_names()
    ensures
        "hello"@ != "device_found"@,
        "hello"@ != "device_lost"@,
        "hello"@ != "device_state_changed"@,
        "hello"@ != "transfer_progress"@,
        "hello"@ != "transfer_added"@,
        "hello"@ != "transfer_finished"@,
        "hello"@ != "transfer_failed"@,
        "hello"@ != "notification_received"@,
        "hello"@ != "clipboard_updated"@,
        "hello"@ != "log_record"@,
        "hello"@ != "battery_changed"@,
        "hello"@ != "telephony_event"@,
        "hello"@ != "volume_changed"@,
        "hello"@ != "command_result"@,
        "hello"@ != "daemon_shutdown"@,
        "device_found"@ != "device_lost"@,
        "device_found"@ != "device_state_changed"@,
        "device_found"@ != "transfer_progress"@,
        "device_found"@ != "transfer_added"@,
        "device_found"@ != "transfer_finished"@,
        "device_found"@ != "transfer_failed"@,
        "device_found"@ != "notification_received"@,
        "device_found"@ != "clipboard_updated"@,
        "device_found"@ != "log_record"@,
        "device_found"@ != "battery_changed"@,
        "device_found"@ != "telephony_event"@,
        "device_found"@ != "volume_changed"@,
        "device_found"@ != "command_result"@,
        "device_found"@ != "daemon_shutdown"@,
        "device_lost"@ != "device_state_changed"@,
        "device_lost"@ != "transfer_progress"@,
        "device_lost"@ != "transfer_added"@,
        "device_lost"@ != "transfer_finished"@,
        "device_lost"@ != "transfer_failed"@,
        "device_lost"@ != "notification_received"@,
        "device_lost"@ != "clipboard_updated"@,
        "device_lost"@ != "log_record"@,
        "device_lost"@ != "battery_changed"@,
        "device_lost"@ != "telephony_event"@,
        "device_lost"@ != "volume_changed"@,
        "device_lost"@ != "command_result"@,
        "device_lost"@ != "daemon_shutdown"@,
        "device_state_changed"@ != "transfer_progress"@,
        "device_state_changed"@ != "transfer_added"@,
        "device_state_changed"@ != "transfer_finished"@,
        "device_state_changed"@ != "transfer_failed"@,
        "device_state_changed"@ != "notification_received"@,
        "device_state_changed"@ != "clipboard_updated"@,
        "device_state_changed"@ != "log_record"@,
        "device_state_changed"@ != "battery_changed"@,
        "device_state_changed"@ != "telephony_event"@,
        "device_state_changed"@ != "volume_changed"@,
        "device_state_changed"@ != "command_result"@,
        "device_state_changed"@ != "daemon_shutdown"@,
        "transfer_progress"@ != "transfer_added"@,
        "transfer_progress"@ != "transfer_finished"@,
        "transfer_progress"@ != "transfer_failed"@,
        "transfer_progress"@ != "notification_received"@,
        "transfer_progress"@ != "clipboard_updated"@,
        "transfer_progress"@ != "log_record"@,
        "transfer_progress"@ != "battery_changed"@,
        "transfer_progress"@ != "telephony_event"@,
        "transfer_progress"@ != "volume_changed"@,
        "transfer_progress"@ != "command_result"@,
        "transfer_progress"@ != "daemon_shutdown"@,
        "transfer_added"@ != "transfer_finished"@,
        "transfer_added"@ != "transfer_failed"@,
        "transfer_added"@ != "notification_received"@,
        "transfer_added"@ != "clipboard_updated"@,
        "transfer_added"@ != "log_record"@,
        "transfer_added"@ != "battery_changed"@,
        "transfer_added"@ != "telephony_event"@,
        "transfer_added"@ != "volume_changed"@,
        "transfer_added"@ != "command_result"@,
        "transfer_added"@ != "daemon_shutdown"@,
        "transfer_finished"@ != "transfer_failed"@,
        "transfer_finished"@ != "notification_received"@,
        "transfer_finished"@ != "clipboard_updated"@,
        "transfer_finished"@ != "log_record"@,
        "transfer_finished"@ != "battery_changed"@,
        "transfer_finished"@ != "telephony_event"@,
        "transfer_finished"@ != "volume_changed"@,
        "transfer_finished"@ != "command_result"@,
        "transfer_finished"@ != "daemon_shutdown"@,
        "transfer_failed"@ != "notification_received"@,
        "transfer_failed"@ != "clipboard_updated"@,
        "transfer_failed"@ != "log_record"@,
        "transfer_failed"@ != "battery_changed"@,
        "transfer_failed"@ != "telephony_event"@,
        "transfer_failed"@ != "volume_changed"@,
        "transfer_failed"@ != "command_result"@,
        "transfer_failed"@ != "daemon_shutdown"@,
        "notification_received"@ != "clipboard_updated"@,
        "notification_received"@ != "log_record"@,
        "notification_received"@ != "battery_changed"@,
        "notification_received"@ != "telephony_event"@,
        "notification_received"@ != "volume_changed"@,
        "notification_received"@ != "command_result"@,
        "notification_received"@ != "daemon_shutdown"@,
        "clipboard_updated"@ != "log_record"@,
        "clipboard_updated"@ != "battery_changed"@,
        "clipboard_updated"@ != "telephony_event"@,
        "clipboard_updated"@ != "volume_changed"@,
        "clipboard_updated"@ != "command_result"@,
        "clipboard_updated"@ != "daemon_shutdown"@,
        "log_record"@ != "battery_changed"@,
        "log_record"@ != "telephony_event"@,
        "log_record"@ != "volume_changed"@,
        "log_record"@ != "command_result"@,
        "log_record"@ != "daemon_shutdown"@,
        "battery_changed"@ != "telephony_event"@,
        "battery_changed"@ != "volume_changed"@,
        "battery_changed"@ != "command_result"@,
        "battery_changed"@ != "daemon_shutdown"@,
        "telephony_event"@ != "volume_changed"@,
        "telephony_event"@ != "command_result"@,
        "telephony_event"@ != "daemon_shutdown"@,
        "volume_changed"@ != "command_result"@,
        "volume_changed"@ != "daemon_shutdown"@,
        "command_result"@ != "daemon_shutdown"@,
{
    reveal_strlit("hello");
    reveal_strlit("device_found");
    reveal_strlit("device_lost");
    reveal_strlit("device_state_changed");
    reveal_strlit("transfer_progress");
    reveal_strlit("transfer_added");
    reveal_strlit("transfer_finished");
    reveal_strlit("transfer_failed");
    reveal_strlit("notification_received");
    reveal_strlit("clipboard_updated");
    reveal_strlit("log_record");
    reveal_strlit("battery_changed");
    reveal_strlit("telephony_event");
    reveal_strlit("volume_changed");
    reveal_strlit("command_result");
    reveal_strlit("daemon_shutdown");
    assert("hello"@.len() == 5);
    assert("device_found"@.len() == 12);
    assert("device_lost"@.len() == 11);
    assert("device_state_changed"@.len() == 20);
    assert("transfer_progress"@.len() == 17);
    assert("transfer_added"@.len() == 14);
    assert("transfer_finished"@.len() == 17);
    assert("transfer_failed"@.len() == 15);
    assert("notification_received"@.len() == 21);
    assert("clipboard_updated"@.len() == 17);
    assert("log_record"@.len() == 10);
    assert("battery_changed"@.len() == 15);
    assert("telephony_event"@.len() == 15);
    assert("volume_changed"@.len() == 14);
    assert("command_result"@.len() == 14);
    assert("daemon_shutdown"@.len() == 15);
    assert("transfer_progress"@[9] != "transfer_finished"@[9]);
    assert("transfer_progress"@[0] != "clipboard_updated"@[0]);
    assert("transfer_added"@[0] != "volume_changed"@[0]);
    assert("transfer_added"@[0] != "command_result"@[0]);
    assert("transfer_finished"@[0] != "clipboard_updated"@[0]);
    assert("transfer_failed"@[0] != "battery_changed"@[0]);
    assert("transfer_failed"@[1] != "telephony_event"@[1]);
    assert("transfer_failed"@[0] != "daemon_shutdown"@[0]);
    assert("battery_changed"@[0] != "telephony_event"@[0]);
    assert("battery_changed"@[0] != "daemon_shutdown"@[0]);
    assert("telephony_event"@[0] != "daemon_shutdown"@[0]);
    assert("volume_changed"@[0] != "command_result"@[0]);
}

proof fn lemma_event_fields()
    ensures
        "app"@ != "body"@,
        "app"@ != "pid"@,
        "app"@ != "title"@,
        "bytes_done"@ != "bytes_total"@,
        "device_id"@ != "charging"@,
        "device_id"@ != "direction"@,
        "device_id"@ != "file_name"@,
        "device_id"@ != "level"@,
        "device_id"@ != "name"@,
        "device_id"@ != "number"@,
        "device_id"@ != "output"@,
        "device_id"@ != "state"@,
        "device_id"@ != "success"@,
        "device_id"@ != "total"@,
        "direction"@ != "file_name"@,
        "direction"@ != "total"@,
        "file_name"@ != "total"@,
        "id"@ != "app"@,
        "id"@ != "body"@,
        "id"@ != "bytes_done"@,
        "id"@ != "bytes_total"@,
        "id"@ != "device_id"@,
        "id"@ != "direction"@,
        "id"@ != "file_name"@,
        "id"@ != "name"@,
        "id"@ != "reason"@,
        "id"@ != "state"@,
        "id"@ != "title"@,
        "id"@ != "total"@,
        "level"@ != "charging"@,
        "level"@ != "msg"@,
        "name"@ != "output"@,
        "name"@ != "success"@,
        "percent"@ != "muted"@,
        "state"@ != "number"@,
        "success"@ != "output"@,
        "title"@ != "body"@,
        "version"@ != "app"@,
        "version"@ != "pid"@,
{
    reveal_strlit("app");
    reveal_strlit("body");
    reveal_strlit("bytes_done");
    reveal_strlit("bytes_total");
    reveal_strlit("charging");
    reveal_strlit("device_id");
    reveal_strlit("direction");
    reveal_strlit("file_name");
    reveal_strlit("id");
    reveal_strlit("level");
    reveal_strlit("msg");
    reveal_strlit("muted");
    reveal_strlit("name");
    reveal_strlit("number");
    reveal_strlit("output");
    reveal_strlit("percent");
    reveal_strlit("pid");
    reveal_strlit("reason");
    reveal_strlit("state");
    reveal_strlit("success");
    reveal_strlit("title");
    reveal_strlit("total");
    reveal_strlit("version");
    assert("app"@.len() == 3);
    assert("body"@.len() == 4);
    assert("bytes_done"@.len() == 10);
    assert("bytes_total"@.len() == 11);
    assert("charging"@.len() == 8);
    assert("device_id"@.len() == 9);
    assert("direction"@.len() == 9);
    assert("file_name"@.len() == 9);
    assert("id"@.len() == 2);
    assert("level"@.len() == 5);
    assert("msg"@.len() == 3);
    assert("muted"@.len() == 5);
    assert("name"@.len() == 4);
    assert("number"@.len() == 6);
    assert("output"@.len() == 6);
    assert("percent"@.len() == 7);
    assert("pid"@.len() == 3);
    assert("reason"@.len() == 6);
    assert("state"@.len() == 5);
    assert("success"@.len() == 7);
    assert("title"@.len() == 5);
    assert("total"@.len() == 5);
    assert("version"@.len() == 7);
    assert("app"@[0] != "pid"@[0]);
    assert("device_id"@[1] != "direction"@[1]);
    assert("device_id"@[0] != "file_name"@[0]);
    assert("direction"@[0] != "file_name"@[0]);
}

/// Reading the document of a message gives the message back.
pub proof fn law_event_round_trip(m: ServerEvent<Seq<char>>)
    ensures
        event_of(event_json(m)) == Some(m),
{
    lemma_event_names();
    lemma_event_fields();
    lemma_envelope_names();
}

/// The document of a response.
pub open spec fn response_json(m: ResponseView) -> JsonView {
    JsonView::Object(
        match m {
            ResponseView::Success { result } => Map::<Seq<char>, JsonView>::empty()
                .insert("status"@, JsonView::Str("ok"@))
                .insert("result"@, result),
            ResponseView::Failure { code, message } => Map::<Seq<char>, JsonView>::empty()
                .insert("status"@, JsonView::Str("err"@))
                .insert("code"@, JsonView::Int(code as int))
                .insert("message"@, JsonView::Str(message)),
        },
    )
}

/// A 32-bit number.
pub open spec fn as_code(v: JsonView) -> Option<i32> {
    match v {
        JsonView::Int(n) if i32::MIN <= n <= i32::MAX => Some(n as i32),
        _ => None,
    }
}

/// The failure with the given code and message, if they are such.
pub open spec fn failure_of(code: JsonView, message: JsonView) -> Option<ResponseView> {
    match (as_code(code), message) {
        (Some(code), JsonView::Str(message)) => Some(ResponseView::Failure { code, message }),
        _ => None,
    }
}

/// The response that a document stands for, if it does: an object, or a list
/// of the status and the fields in order.
pub open spec fn response_of(j: JsonView) -> Option<ResponseView> {
    match j {
        JsonView::Object(m) => match json::text_at(j, "status"@) {
            Some(status) => if status == "ok"@ {
                match json::member(j, "result"@) {
                    Some(result) => Some(ResponseView::Success { result }),
                    None => None,
                }
            } else if status == "err"@ {
                match (json::member(j, "code"@), json::member(j, "message"@)) {
                    (Some(code), Some(message)) => failure_of(code, message),
                    _ => None,
                }
            } else {
                None
            },
            None => None,
        },
        JsonView::Array(s) => if s.len() == 2 && s[0] == JsonView::Str("ok"@) {
            Some(ResponseView::Success { result: s[1] })
        } else if s.len() == 3 && s[0] == JsonView::Str("err"@) {
            failure_of(s[1], s[2])
        } else {
            None
        },
        _ => None,
    }
}

fn read_failure(code: &Json, message: &Json) -> (r: Option<Response>)
    ensures
        match r {
            Some(m) => failure_of(code@, message@) == Some(m@),
            None => failure_of(code@, message@) is None,
        },
{
    let number: i32 = match code.as_i64() {
        Some(n) => if n >= -0x8000_0000 && n <= 0x7fff_ffff {
            n as i32
        } else {
            return None;
        },
        None => {
            return None;
        },
    };
    match message.as_str() {
        Some(text) => Some(Response::Failure { code: number, message: text.to_owned() }),
        None => None,
    }
}

fn is_text(j: &Json, wanted: &str) -> (r: bool)
    ensures
        r == (j@ == JsonView::Str(wanted@)),
{
    match j {
        Json::Str(s) => text::same(s.as_str(), wanted),
        _ => false,
    }
}

impl Response {
    /// The document of this response.
    pub fn to_json(&self) -> (r: Json)
        ensures
            r@ == response_json(self@),
    {
        match self {
            Response::Success { result } => Record::new()
                .with("status", Json::text("ok"))
                .with("result", result.clone())
                .done(),
            Response::Failure { code, message } => Record::new()
                .with("status", Json::text("err"))
                .with("code", Json::Int(*code as i64))
                .with("message", Json::text(message.as_str()))
                .done(),
        }
    }

    /// Reads the response that a document stands for.
    pub fn from_json(j: &Json) -> (r: Option<Response>)
        ensures
            match r {
                Some(m) => response_of(j@) == Some(m@),
                None => response_of(j@) is None,
            },
    {
        match j {
            Json::Object(_) => {
                let status = match j.str_member("status") {
                    Some(status) => status,
                    None => {
                        return None;
                    },
                };
                if text::same(status, "ok") {
                    match j.get("result") {
                        Some(result) => Some(Response::Success { result: result.clone() }),
                        None => None,
                    }
                } else if text::same(status, "err") {
                    match (j.get("code"), j.get("message")) {
                        (Some(code), Some(message)) => read_failure(code, message),
                        _ => None,
                    }
                } else {
                    None
                }
            },
            Json::Array(items) => {
                proof {
                    json::lemma_list_view(items@);
                }
                if items.len() == 2 && is_text(&items[0], "ok") {
                    Some(Response::Success { result: items[1].clone() })
                } else if items.len() == 3 && is_text(&items[0], "err") {
                    read_failure(&items[1], &items[2])
                } else {
                    None
                }
            },
            _ => None,
        }
    }
}

/// Reading the document of a response gives the response back.
pub proof fn law_response_round_trip(m: ResponseView)
    ensures
        response_of(response_json(m)) == Some(m),
{
    lemma_envelope_names();
}

/// A response is never taken for an event.
pub proof fn law_responses_are_no_events(m: ResponseView)
    ensures
        event_of(response_json(m)) is None,
{
    lemma_envelope_names();
}

/// The event that local clients get for an event of the daemon; a received
/// share is not passed on.
pub open spec fn forwarded(e: Event<Seq<char>>) -> Option<ServerEvent<Seq<char>>> {
    match e {
        Event::DeviceFound { id, name } => Some(ServerEvent::DeviceFound { id, name }),
        Event::DeviceLost { id } => Some(ServerEvent::DeviceLost { id }),
        Event::DeviceStateChanged { id, state } => Some(
            ServerEvent::DeviceStateChanged { id, state },
        ),
        Event::TransferAdded { id, device_id, direction, file_name, total } => Some(
            ServerEvent::TransferAdded { id, device_id, direction, file_name, total },
        ),
        Event::TransferProgress { id, bytes_done, bytes_total } => Some(
            ServerEvent::TransferProgress { id, bytes_done, bytes_total },
        ),
        Event::TransferFinished { id } => Some(ServerEvent::TransferFinished { id }),
        Event::TransferFailed { id, reason } => Some(ServerEvent::TransferFailed { id, reason }),
        Event::NotificationReceived { id, app, title, body } => Some(
            ServerEvent::NotificationReceived { id, app, title, body },
        ),
        Event::ClipboardUpdated { text } => Some(ServerEvent::ClipboardUpdated { text }),
        Event::LogRecord { level, msg } => Some(ServerEvent::LogRecord { level, msg }),
        Event::DaemonShutdown => Some(ServerEvent::DaemonShutdown),
        Event::ShareReceived { .. } => None,
    }
}

impl ServerEvent<String> {
    /// The event that local clients get for an event of the daemon.
    pub fn from_event(event: Event) -> (r: Option<ServerEvent>)
        ensures
            match r {
                Some(e) => forwarded(event@) == Some(e@),
                None => forwarded(event@) is None,
            },
    {
        match event {
            Event::DeviceFound { id, name } => Some(ServerEvent::DeviceFound { id, name }),
            Event::DeviceLost { id } => Some(ServerEvent::DeviceLost { id }),
            Event::DeviceStateChanged { id, state } => Some(
                ServerEvent::DeviceStateChanged { id, state },
            ),
            Event::TransferAdded { id, device_id, direction, file_name, total } => Some(
                ServerEvent::TransferAdded { id, device_id, direction, file_name, total },
            ),
            Event::TransferProgress { id, bytes_done, bytes_total } => Some(
                ServerEvent::TransferProgress { id, bytes_done, bytes_total },
            ),
            Event::TransferFinished { id } => Some(ServerEvent::TransferFinished { id }),
            Event::TransferFailed { id, reason } => Some(
                ServerEvent::TransferFailed { id, reason },
            ),
            Event::NotificationReceived { id, app, title, body } => Some(
                ServerEvent::NotificationReceived { id, app, title, body },
            ),
            Event::ClipboardUpdated { text } => Some(ServerEvent::ClipboardUpdated { text }),
            Event::LogRecord { level, msg } => Some(ServerEvent::LogRecord { level, msg }),
            Event::DaemonShutdown => Some(ServerEvent::DaemonShutdown),
            Event::ShareReceived { .. } => None,
        }
    }
}

/// A request is written under its own name, with each value that it carries
/// under the name of that value.
pub proof fn law_requests_are_written_by_name(m: Request<Seq<char>>)
    ensures
        ({
            let j = request_json(m);
            let c = json::member(j, "params"@)->0;
            match m {
            Request::DaemonInfo => json::text_at(j, "method"@) == Some("daemon_info"@) && json::member(
                j,
                "params"@,
            ) is None,
            Request::DeviceList => json::text_at(j, "method"@) == Some("device_list"@) && json::member(
                j,
                "params"@,
            ) is None,
            Request::DevicePair { device_id } => {
                &&& json::text_at(j, "method"@) == Some("device_pair"@)
                &&& json::member(j, "params"@) is Some
                &&& json::text_at(c, "device_id"@) == Some(device_id)
            },
            Request::DeviceUnpair { device_id } => {
                &&& json::text_at(j, "method"@) == Some("device_unpair"@)
                &&& json::member(j, "params"@) is Some
                &&& json::text_at(c, "device_id"@) == Some(device_id)
            },
            Request::PluginList { device_id } => {
                &&& json::text_at(j, "method"@) == Some("plugin_list"@)
                &&& json::member(j, "params"@) is Some
                &&& json::text_at(c, "device_id"@) == Some(device_id)
            },
            Request::PluginSetEnabled { device_id, plugin, enabled } => {
                &&& json::text_at(j, "method"@) == Some("plugin_set_enabled"@)
                &&& json::member(j, "params"@) is Some
                &&& json::text_at(c, "device_id"@) == Some(device_id)
                &&& json::text_at(c, "plugin"@) == Some(plugin)
                &&& json::flag_at(c, "enabled"@) == Some(enabled)
            },
            Request::SendFile { device_id, path } => {
                &&& json::text_at(j, "method"@) == Some("send_file"@)
                &&& json::member(j, "params"@) is Some
                &&& json::text_at(c, "device_id"@) == Some(device_id)
                &&& json::text_at(c, "path"@) == Some(path)
            },
            Request::NotificationList => json::text_at(j, "method"@) == Some("notification_list"@) && json::member(
                j,
                "params"@,
            ) is None,
            Request::NotificationDismiss { notification_id } => {
                &&& json::text_at(j, "method"@) == Some("notification_dismiss"@)
                &&& json::member(j, "params"@) is Some
                &&& json::text_at(c, "notification_id"@) == Some(notification_id)
            },
            Request::ClipboardGet => json::text_at(j, "method"@) == Some("clipboard_get"@) && json::member(
                j,
                "params"@,
            ) is None,
            Request::ClipboardSet { text } => {
                &&& json::text_at(j, "method"@) == Some("clipboard_set"@)
                &&& json::member(j, "params"@) is Some
                &&& json::text_at(c, "text"@) == Some(text)
            },
            Request::Ping => json::text_at(j, "method"@) == Some("ping"@) && json::member(
                j,
                "params"@,
            ) is None,
            Request::TransferList => json::text_at(j, "method"@) == Some("transfer_list"@) && json::member(
                j,
                "params"@,
            ) is None,
            Request::TransferCancel { transfer_id } => {
                &&& json::text_at(j, "method"@) == Some("transfer_cancel"@)
                &&& json::member(j, "params"@) is Some
                &&& json::text_at(c, "transfer_id"@) == Some(transfer_id)
            },
            Request::RunCommandList { device_id } => {
                &&& json::text_at(j, "method"@) == Some("run_command_list"@)
                &&& json::member(j, "params"@) is Some
                &&& json::text_at(c, "device_id"@) == Some(device_id)
            },
            Request::RunCommand { device_id, command_name } => {
                &&& json::text_at(j, "method"@) == Some("run_command"@)
                &&& json::member(j, "params"@) is Some
                &&& json::text_at(c, "device_id"@) == Some(device_id)
                &&& json::text_at(c, "command_name"@) == Some(command_name)
            },
            Request::SetVolume { percent } => {
                &&& json::text_at(j, "method"@) == Some("set_volume"@)
                &&& json::member(j, "params"@) is Some
                &&& json::member(c, "percent"@) == Some(JsonView::Int(percent as int))
            },
            Request::GetVolume => json::text_at(j, "method"@) == Some("get_volume"@) && json::member(
                j,
                "params"@,
            ) is None,
            Request::ShareText { device_id, text } => {
                &&& json::text_at(j, "method"@) == Some("share_text"@)
                &&& json::member(j, "params"@) is Some
                &&& json::text_at(c, "device_id"@) == Some(device_id)
                &&& json::text_at(c, "text"@) == Some(text)
            },
            Request::ShareUrl { device_id, url } => {
                &&& json::text_at(j, "method"@) == Some("share_url"@)
                &&& json::member(j, "params"@) is Some
                &&& json::text_at(c, "device_id"@) == Some(device_id)
                &&& json::text_at(c, "url"@) == Some(url)
            },
            Request::RequestBattery { device_id } => {
                &&& json::text_at(j, "method"@) == Some("request_battery"@)
                &&& json::member(j, "params"@) is Some
                &&& json::text_at(c, "device_id"@) == Some(device_id)
            },
            Request::SendSms { device_id, number, text } => {
                &&& json::text_at(j, "method"@) == Some("send_sms"@)
                &&& json::member(j, "params"@) is Some
                &&& json::text_at(c, "device_id"@) == Some(device_id)
                &&& json::text_at(c, "number"@) == Some(number)
                &&& json::text_at(c, "text"@) == Some(text)
            },
            }
        }),
{
    lemma_envelope_names();
    reveal_strlit("command_name");
    reveal_strlit("device_id");
    reveal_strlit("enabled");
    reveal_strlit("notification_id");
    reveal_strlit("number");
    reveal_strlit("path");
    reveal_strlit("percent");
    reveal_strlit("plugin");
    reveal_strlit("text");
    reveal_strlit("transfer_id");
    reveal_strlit("url");
    assert("command_name"@.len() == 12);
    assert("device_id"@.len() == 9);
    assert("enabled"@.len() == 7);
    assert("notification_id"@.len() == 15);
    assert("number"@.len() == 6);
    assert("path"@.len() == 4);
    assert("percent"@.len() == 7);
    assert("plugin"@.len() == 6);
    assert("text"@.len() == 4);
    assert("transfer_id"@.len() == 11);
    assert("url"@.len() == 3);
    assert("enabled"@[0] != "percent"@[0]);
    assert("number"@[0] != "plugin"@[0]);
    assert("path"@[0] != "text"@[0]);
}

/// An event is written under its own name, with each value that it carries
/// under the name of that value.
pub proof fn law_events_are_written_by_name(m: ServerEvent<Seq<char>>)
    ensures
        ({
            let j = event_json(m);
            let c = json::member(j, "data"@)->0;
            match m {
            ServerEvent::Hello { version, app, pid } => {
                &&& json::text_at(j, "event"@) == Some("hello"@)
                &&& json::member(j, "data"@) is Some
                &&& json::member(c, "version"@) == Some(JsonView::Int(version as int))
                &&& json::text_at(c, "app"@) == Some(app)
                &&& json::member(c, "pid"@) == Some(JsonView::Int(pid as int))
            },
            ServerEvent::DeviceFound { id, name } => {
                &&& json::text_at(j, "event"@) == Some("device_found"@)
                &&& json::member(j, "data"@) is Some
                &&& json::text_at(c, "id"@) == Some(id)
                &&& json::text_at(c, "name"@) == Some(name)
            },
            ServerEvent::DeviceLost { id } => {
                &&& json::text_at(j, "event"@) == Some("device_lost"@)
                &&& json::member(j, "data"@) is Some
                &&& json::text_at(c, "id"@) == Some(id)
            },
            ServerEvent::DeviceStateChanged { id, state } => {
                &&& json::text_at(j, "event"@) == Some("device_state_changed"@)
                &&& json::member(j, "data"@) is Some
                &&& json::text_at(c, "id"@) == Some(id)
                &&& json::text_at(c, "state"@) == Some(state)
            },
            ServerEvent::TransferProgress { id, bytes_done, bytes_total } => {
                &&& json::text_at(j, "event"@) == Some("transfer_progress"@)
                &&& json::member(j, "data"@) is Some
                &&& json::text_at(c, "id"@) == Some(id)
                &&& json::member(c, "bytes_done"@) == Some(JsonView::Int(bytes_done as int))
                &&& json::member(c, "bytes_total"@) == Some(JsonView::Int(bytes_total as int))
            },
            ServerEvent::TransferAdded { id, device_id, direction, file_name, total } => {
                &&& json::text_at(j, "event"@) == Some("transfer_added"@)
                &&& json::member(j, "data"@) is Some
                &&& json::text_at(c, "id"@) == Some(id)
                &&& json::text_at(c, "device_id"@) == Some(device_id)
                &&& json::text_at(c, "direction"@) == Some(direction)
                &&& json::text_at(c, "file_name"@) == Some(file_name)
                &&& json::member(c, "total"@) == Some(JsonView::Int(total as int))
            },
            ServerEvent::TransferFinished { id } => {
                &&& json::text_at(j, "event"@) == Some("transfer_finished"@)
                &&& json::member(j, "data"@) is Some
                &&& json::text_at(c, "id"@) == Some(id)
            },
            ServerEvent::TransferFailed { id, reason } => {
                &&& json::text_at(j, "event"@) == Some("transfer_failed"@)
                &&& json::member(j, "data"@) is Some
                &&& json::text_at(c, "id"@) == Some(id)
                &&& json::text_at(c, "reason"@) == Some(reason)
            },
            ServerEvent::NotificationReceived { id, app, title, body } => {
                &&& json::text_at(j, "event"@) == Some("notification_received"@)
                &&& json::member(j, "data"@) is Some
                &&& json::text_at(c, "id"@) == Some(id)
                &&& json::text_at(c, "app"@) == Some(app)
                &&& json::text_at(c, "title"@) == Some(title)
                &&& json::text_at(c, "body"@) == Some(body)
            },
            ServerEvent::ClipboardUpdated { text } => {
                &&& json::text_at(j, "event"@) == Some("clipboard_updated"@)
                &&& json::member(j, "data"@) is Some
                &&& json::text_at(c, "text"@) == Some(text)
            },
            ServerEvent::LogRecord { level, msg } => {
                &&& json::text_at(j, "event"@) == Some("log_record"@)
                &&& json::member(j, "data"@) is Some
                &&& json::text_at(c, "level"@) == Some(level)
                &&& json::text_at(c, "msg"@) == Some(msg)
            },
            ServerEvent::BatteryChanged { device_id, level, charging } => {
                &&& json::text_at(j, "event"@) == Some("battery_changed"@)
                &&& json::member(j, "data"@) is Some
                &&& json::text_at(c, "device_id"@) == Some(device_id)
                &&& json::member(c, "level"@) == Some(JsonView::Int(level as int))
                &&& json::flag_at(c, "charging"@) == Some(charging)
            },
            ServerEvent::TelephonyEvent { device_id, state, number } => {
                &&& json::text_at(j, "event"@) == Some("telephony_event"@)
                &&& json::member(j, "data"@) is Some
                &&& json::text_at(c, "device_id"@) == Some(device_id)
                &&& json::text_at(c, "state"@) == Some(state)
                &&& json::text_at(c, "number"@) == number
                &&& json::member(c, "number"@) is Some
            },
            ServerEvent::VolumeChanged { percent, muted } => {
                &&& json::text_at(j, "event"@) == Some("volume_changed"@)
                &&& json::member(j, "data"@) is Some
                &&& json::member(c, "percent"@) == Some(JsonView::Int(percent as int))
                &&& json::flag_at(c, "muted"@) == Some(muted)
            },
            ServerEvent::CommandResult { device_id, name, success, output } => {
                &&& json::text_at(j, "event"@) == Some("command_result"@)
                &&& json::member(j, "data"@) is Some
                &&& json::text_at(c, "device_id"@) == Some(device_id)
                &&& json::text_at(c, "name"@) == Some(name)
                &&& json::flag_at(c, "success"@) == Some(success)
                &&& json::text_at(c, "output"@) == Some(output)
            },
            ServerEvent::DaemonShutdown => json::text_at(j, "event"@) == Some("daemon_shutdown"@) && json::member(
                j,
                "data"@,
            ) is None,
            }
        }),
{
    lemma_envelope_names();
    reveal_strlit("app");
    reveal_strlit("body");
    reveal_strlit("bytes_done");
    reveal_strlit("bytes_total");
    reveal_strlit("charging");
    reveal_strlit("device_id");
    reveal_strlit("direction");
    reveal_strlit("file_name");
    reveal_strlit("id");
    reveal_strlit("level");
    reveal_strlit("msg");
    reveal_strlit("muted");
    reveal_strlit("name");
    reveal_strlit("number");
    reveal_strlit("output");
    reveal_strlit("percent");
    reveal_strlit("pid");
    reveal_strlit("reason");
    reveal_strlit("state");
    reveal_strlit("success");
    reveal_strlit("text");
    reveal_strlit("title");
    reveal_strlit("total");
    reveal_strlit("version");
    assert("app"@.len() == 3);
    assert("body"@.len() == 4);
    assert("bytes_done"@.len() == 10);
    assert("bytes_total"@.len() == 11);
    assert("charging"@.len() == 8);
    assert("device_id"@.len() == 9);
    assert("direction"@.len() == 9);
    assert("file_name"@.len() == 9);
    assert("id"@.len() == 2);
    assert("level"@.len() == 5);
    assert("msg"@.len() == 3);
    assert("muted"@.len() == 5);
    assert("name"@.len() == 4);
    assert("number"@.len() == 6);
    assert("output"@.len() == 6);
    assert("percent"@.len() == 7);
    assert("pid"@.len() == 3);
    assert("reason"@.len() == 6);
    assert("state"@.len() == 5);
    assert("success"@.len() == 7);
    assert("text"@.len() == 4);
    assert("title"@.len() == 5);
    assert("total"@.len() == 5);
    assert("version"@.len() == 7);
    assert("app"@[0] != "msg"@[0]);
    assert("app"@[0] != "pid"@[0]);
    assert("body"@[0] != "name"@[0]);
    assert("body"@[0] != "text"@[0]);
    assert("device_id"@[1] != "direction"@[1]);
    assert("device_id"@[0] != "file_name"@[0]);
    assert("direction"@[0] != "file_name"@[0]);
    assert("level"@[0] != "muted"@[0]);
    assert("level"@[0] != "state"@[0]);
    assert("level"@[0] != "title"@[0]);
    assert("level"@[0] != "total"@[0]);
    assert("msg"@[0] != "pid"@[0]);
    assert("muted"@[0] != "state"@[0]);
    assert("muted"@[0] != "title"@[0]);
    assert("muted"@[0] != "total"@[0]);
    assert("name"@[0] != "text"@[0]);
    assert("number"@[0] != "output"@[0]);
    assert("number"@[0] != "reason"@[0]);
    assert("output"@[0] != "reason"@[0]);
    assert("percent"@[0] != "success"@[0]);
    assert("percent"@[0] != "version"@[0]);
    assert("state"@[0] != "title"@[0]);
    assert("state"@[0] != "total"@[0]);
    assert("success"@[0] != "version"@[0]);
    assert("title"@[1] != "total"@[1]);
}

/// A response says whether it is a success: a success carries its result, a
/// failure its code and the reason.
pub proof fn law_responses_are_written_by_name(m: ResponseView)
    ensures
        ({
            let j = response_json(m);
            match m {
                ResponseView::Success { result } => json::text_at(j, "status"@) == Some("ok"@)
                    && json::member(j, "result"@) == Some(result),
                ResponseView::Failure { code, message } => json::text_at(j, "status"@) == Some(
                    "err"@,
                ) && json::member(j, "code"@) == Some(JsonView::Int(code as int)) && json::text_at(
                    j,
                    "message"@,
                ) == Some(message),
            }
        }),
{
    lemma_envelope_names();
}

/// What happens in the daemon reaches local clients as it happened; only a
/// received share is not passed on.
pub proof fn law_events_reach_clients_unchanged(e: Event<Seq<char>>)
    ensures
        match e {
            Event::DeviceFound { id, name } => forwarded(e) == Some(ServerEvent::DeviceFound { id, name }),
            Event::DeviceLost { id } => forwarded(e) == Some(ServerEvent::DeviceLost { id }),
            Event::DeviceStateChanged { id, state } => forwarded(e) == Some(ServerEvent::DeviceStateChanged { id, state }),
            Event::TransferAdded { id, device_id, direction, file_name, total } => forwarded(e) == Some(ServerEvent::TransferAdded { id, device_id, direction, file_name, total }),
            Event::TransferProgress { id, bytes_done, bytes_total } => forwarded(e) == Some(ServerEvent::TransferProgress { id, bytes_done, bytes_total }),
            Event::TransferFinished { id } => forwarded(e) == Some(ServerEvent::TransferFinished { id }),
            Event::TransferFailed { id, reason } => forwarded(e) == Some(ServerEvent::TransferFailed { id, reason }),
            Event::NotificationReceived { id, app, title, body } => forwarded(e) == Some(ServerEvent::NotificationReceived { id, app, title, body }),
            Event::ClipboardUpdated { text } => forwarded(e) == Some(ServerEvent::ClipboardUpdated { text }),
            Event::LogRecord { level, msg } => forwarded(e) == Some(ServerEvent::LogRecord { level, msg }),
            Event::DaemonShutdown => forwarded(e) is Some && forwarded(e)->0 is DaemonShutdown,
            Event::ShareReceived { .. } => forwarded(e) is None,
        },
{
}

} // verus!
