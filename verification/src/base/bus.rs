//! Events that the daemon's parts publish.
use vstd::prelude::*;

verus! {

/// Events emitted by daemon subsystems; `S` is the type of their texts.
#[derive(Debug, Clone, PartialEq, Eq)]
pub enum Event<S = String> {
    /// A device announced itself on the network.
    DeviceFound {
        /// Stable device identifier.
        id: S,
        /// Human-readable device name.
        name: S,
    },
    /// A previously visible device disappeared.
    DeviceLost {
        /// Device identifier.
        id: S,
    },
    /// Connectivity state changed (e.g. `"online"`, `"offline"`).
    DeviceStateChanged {
        /// Device identifier.
        id: S,
        /// New state label.
        state: S,
    },
    /// A transfer was registered.
    TransferAdded {
        /// Transfer identifier.
        id: S,
        /// Peer device identifier.
        device_id: S,
        /// Direction label (`"outgoing"` or `"incoming"`).
        direction: S,
        /// Name of the transferred file.
        file_name: S,
        /// Total transfer size in bytes.
        total: u64,
    },
    /// Progress update for an ongoing file transfer.
    TransferProgress {
        /// Transfer identifier.
        id: S,
        /// Bytes transferred so far.
        bytes_done: u64,
        /// Total transfer size in bytes.
        bytes_total: u64,
    },
    /// A transfer completed successfully.
    TransferFinished {
        /// Transfer identifier.
        id: S,
    },
    /// A transfer failed or was cancelled.
    TransferFailed {
        /// Transfer identifier.
        id: S,
        /// Human-readable failure reason.
        reason: S,
    },
    /// A shared file arrived.
    ShareReceived {
        /// Where the file landed.
        path: S,
        /// Device that sent it.
        device_id: S,
    },
    /// An incoming notification arrived on a paired device.
    NotificationReceived {
        /// Notification identifier.
        id: S,
        /// Originating application name.
        app: S,
        /// Notification title.
        title: S,
        /// Notification body text.
        body: S,
    },
    /// Remote clipboard content was received.
    ClipboardUpdated {
        /// Clipboard text.
        text: S,
    },
    /// Structured log record for UI surfaces.
    LogRecord {
        /// Severity label (`"info"`, `"warn"`, ...).
        level: S,
        /// Rendered message.
        msg: S,
    },
    /// The daemon is shutting down; subscribers should wind down.
    DaemonShutdown,
}

impl View for Event<String> {
    type V = Event<Seq<char>>;

    open spec fn view(&self) -> Event<Seq<char>> {
        match self {
            Event::DeviceFound { id, name } => Event::DeviceFound { id: id@, name: name@ },
            Event::DeviceLost { id } => Event::DeviceLost { id: id@ },
            Event::DeviceStateChanged { id, state } => Event::DeviceStateChanged {
                id: id@,
                state: state@,
            },
            Event::TransferAdded { id, device_id, direction, file_name, total } => Event::TransferAdded {
                id: id@,
                device_id: device_id@,
                direction: direction@,
                file_name: file_name@,
                total: *total,
            },
            Event::TransferProgress { id, bytes_done, bytes_total } => Event::TransferProgress {
                id: id@,
                bytes_done: *bytes_done,
                bytes_total: *bytes_total,
            },
            Event::TransferFinished { id } => Event::TransferFinished { id: id@ },
            Event::TransferFailed { id, reason } => Event::TransferFailed {
                id: id@,
                reason: reason@,
            },
            Event::ShareReceived { path, device_id } => Event::ShareReceived {
                path: path@,
                device_id: device_id@,
            },
            Event::NotificationReceived { id, app, title, body } => Event::NotificationReceived {
                id: id@,
                app: app@,
                title: title@,
                body: body@,
            },
            Event::ClipboardUpdated { text } => Event::ClipboardUpdated { text: text@ },
            Event::LogRecord { level, msg } => Event::LogRecord { level: level@, msg: msg@ },
            Event::DaemonShutdown => Event::DaemonShutdown,
        }
    }
}

/// What a list of events says.
pub open spec fn events_view(v: Seq<Event>) -> Seq<Event<Seq<char>>> {
    v.map_values(|e: Event| e@)
}

} // verus!
