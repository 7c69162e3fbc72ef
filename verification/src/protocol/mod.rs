//! The device protocol: identities, packets, their framing, certificates and
//! transfer metadata.
use crate::text;
use vstd::prelude::*;

pub mod fields;
pub mod frame;
pub mod identity;
pub mod packet;
pub mod tls;
pub mod transfer;

pub use identity::Identity;
pub use packet::{Packet, PacketIds};

verus! {

/// Protocol version this implementation speaks.
pub const PROTO_VERSION: u16 = 8;

/// TCP port for incoming TLS connections.
pub const DEFAULT_TCP_PORT: u16 = 1716;

/// UDP port used for LAN discovery broadcasts.
pub const UDP_BROADCAST_PORT: u16 = 1716;

/// Hard cap on a single framed packet.
pub const MAX_PACKET_LEN: usize = 524288;

/// Identity announcement broadcast during discovery.
pub const TYPE_IDENTITY: &'static str = "kdeconnect.identity";

/// Pairing accept/reject negotiation.
pub const TYPE_PAIR: &'static str = "kdeconnect.pair";

/// Legacy alias for the pairing request; kept for documentation only.
pub const TYPE_PAIR_REQUEST: &'static str = "kdeconnect.pairingrequest";

/// Liveness probe.
pub const TYPE_PING: &'static str = "kdeconnect.ping";

/// Notification posted on (or mirrored from) a peer.
pub const TYPE_NOTIFICATION: &'static str = "kdeconnect.notification";

/// Request a peer's notifications or revoke one.
pub const TYPE_NOTIFICATION_REQUEST: &'static str = "kdeconnect.notification.request";

/// Remote input events (mouse movement, clicks, keyboard text).
pub const TYPE_MOUSEPAD: &'static str = "kdeconnect.mousepad.request";

/// Media player state reports from either side.
pub const TYPE_MPRIS: &'static str = "kdeconnect.mpris";

/// Query or command remote media players.
pub const TYPE_MPRIS_REQUEST: &'static str = "kdeconnect.mpris.request";

/// Synchronized clipboard content.
pub const TYPE_CLIPBOARD: &'static str = "kdeconnect.clipboard";

/// Advertises whether a peer participates in clipboard sync.
pub const TYPE_CLIPBOARD_CONNECT: &'static str = "kdeconnect.clipboard.connect";

/// Share text, URLs or file-transfer metadata.
pub const TYPE_SHARE: &'static str = "kdeconnect.share.request";

/// Composite-transfer progress totals sent alongside [`TYPE_SHARE`].
///
/// The sender announces how many files and how many payload bytes a batch of
/// transfers will carry; receivers must not require it.
pub const TYPE_SHARE_UPDATE: &'static str = "kdeconnect.share.request.update";

/// Lowest port the sender of a file transfer listens on for the payload
/// channel.
pub const PAYLOAD_TRANSFER_MIN_PORT: u16 = 1739;

/// Lists commands runnable on a peer.
pub const TYPE_RUNCOMMAND: &'static str = "kdeconnect.runcommand";

/// Requests execution of a previously advertised command.
pub const TYPE_RUNCOMMAND_REQUEST: &'static str = "kdeconnect.runcommand.request";

/// Battery status report.
pub const TYPE_BATTERY: &'static str = "kdeconnect.battery";

/// Requests a battery status update.
pub const TYPE_BATTERY_REQUEST: &'static str = "kdeconnect.battery.request";

/// Exposes an SSH/SFTP browse endpoint for the device filesystem.
pub const TYPE_SFTP: &'static str = "kdeconnect.sftp";

/// Telephony events (rings, SMS) between phone and desktop.
pub const TYPE_TELEPHONY: &'static str = "kdeconnect.telephony";

/// System volume reports and controls.
pub const TYPE_SYSTEMVOLUME: &'static str = "kdeconnect.systemvolume";

/// Rings a lost phone at full volume.
pub const TYPE_FINDMYPHONE: &'static str = "kdeconnect.findmyphone.request";

/// Errors of framing packets, parsing payloads or handling device
/// credentials.
#[derive(Debug, Clone, PartialEq, Eq)]
pub enum Error {
    /// Socket or filesystem failure.
    Io(String),
    /// A packet or its body is not the JSON that it should be.
    Json(String),
    /// Certificate generation or loading failure.
    Cert(String),
    /// Protocol violation without a tighter variant.
    Other(String),
}

impl Error {
    /// The human-readable text of the error.
    pub open spec fn text(self) -> Seq<char> {
        match self {
            Error::Io(m) => "io error: "@ + m@,
            Error::Json(m) => "json error: "@ + m@,
            Error::Cert(m) => "certificate error: "@ + m@,
            Error::Other(m) => m@,
        }
    }

    /// The human-readable text of the error.
    pub fn message(&self) -> (r: String)
        ensures
            r@ == self.text(),
    {
        match self {
            Error::Io(m) => "io error: ".to_owned().concat(m.as_str()),
            Error::Json(m) => "json error: ".to_owned().concat(m.as_str()),
            Error::Cert(m) => "certificate error: ".to_owned().concat(m.as_str()),
            Error::Other(m) => m.clone(),
        }
    }
}

} // verus!
