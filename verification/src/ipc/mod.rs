//! Local IPC: typed JSON messages between the daemon and local clients over a
//! Unix domain socket.
//!
//! Every message is one frame: a little-endian `u32` payload length followed
//! by that many bytes of JSON.
use crate::base::paths;
use crate::base::store;
use crate::base::APP_NAME;
use crate::text;
use vstd::prelude::*;

pub mod client;
pub mod codec;
pub mod proto;
pub mod server;

pub use proto::{Request, Response, ServerEvent};

verus! {

/// Wire protocol version reported in the handshake.
pub const IPC_VERSION: u32 = 1;

/// Maximum accepted frame payload size (16 MiB).
pub const MAX_FRAME_BYTES: usize = 16777216;

/// Errors of the IPC transport and protocol layers.
#[derive(Debug, Clone, PartialEq, Eq)]
pub enum Error {
    /// Socket or other I/O failure.
    Io(String),
    /// JSON encoding/decoding failure inside a frame.
    Json(String),
    /// A frame declared or required more than [`MAX_FRAME_BYTES`].
    FrameTooLarge {
        /// Offending size in bytes.
        size: usize,
        /// Configured maximum.
        max: usize,
    },
    /// Peer closed the connection or the stream ended mid-frame.
    Closed,
    /// Any other failure, described by the payload.
    Other(String),
}

impl Error {
    /// The human-readable text of the error.
    pub open spec fn text(self) -> Seq<char> {
        match self {
            Error::Io(m) => "io: "@ + m@,
            Error::Json(m) => "json: "@ + m@,
            Error::FrameTooLarge { size, max } => "frame too large: "@ + text::decimal(
                size as nat,
            ) + " bytes exceeds limit of "@ + text::decimal(max as nat) + " bytes"@,
            Error::Closed => "connection closed"@,
            Error::Other(m) => m@,
        }
    }

    /// The human-readable text of the error.
    pub fn message(&self) -> (r: String)
        ensures
            r@ == self.text(),
    {
        match self {
            Error::Io(m) => "io: ".to_owned().concat(m.as_str()),
            Error::Json(m) => "json: ".to_owned().concat(m.as_str()),
            Error::FrameTooLarge { size, max } => "frame too large: ".to_owned().concat(
                text::decimal_text(*size as u128).as_str(),
            ).concat(" bytes exceeds limit of ").concat(
                text::decimal_text(*max as u128).as_str(),
            ).concat(" bytes"),
            Error::Closed => "connection closed".to_owned(),
            Error::Other(m) => m.clone(),
        }
    }
}

/// The default location of the daemon's endpoint: below the runtime directory
/// where there is one, else in `/tmp` under a name of the user.
pub open spec fn socket_path(runtime_dir: Option<Seq<char>>, uid: Option<u32>) -> Seq<char> {
    match (runtime_dir, uid) {
        (Some(dir), _) if dir.len() > 0 => paths::below(
            paths::below(dir, APP_NAME@),
            APP_NAME@ + ".sock"@,
        ),
        (_, Some(n)) => paths::below(
            "/tmp"@,
            APP_NAME@ + "-"@ + text::decimal(n as nat) + ".sock"@,
        ),
        (_, None) => paths::below("/tmp"@, APP_NAME@ + ".sock"@),
    }
}

/// Default location of the daemon's endpoint.
pub fn default_socket_path(runtime_dir: Option<&str>, uid: Option<u32>) -> (r: String)
    ensures
        r@ == socket_path(store::str_view(runtime_dir), uid),
{
    if let Some(dir) = runtime_dir {
        if !dir.is_empty() {
            let below = paths::join(dir, APP_NAME);
            return paths::join(below.as_str(), APP_NAME.to_owned().concat(".sock").as_str());
        }
    }
    match uid {
        Some(n) => {
            let name = APP_NAME.to_owned().concat("-").concat(
                text::decimal_text(n as u128).as_str(),
            ).concat(".sock");
            paths::join("/tmp", name.as_str())
        },
        None => paths::join("/tmp", APP_NAME.to_owned().concat(".sock").as_str()),
    }
}

/// Whether a client runs as the daemon's own user. Where either user is not
/// known, the client is refused.
pub open spec fn owned(peer_uid: Option<u32>, own_uid: Option<u32>) -> bool {
    peer_uid is Some && peer_uid == own_uid
}

/// Only the user who runs the daemon is served: nobody who is not known, and
/// nobody else.
pub proof fn law_only_the_owner_is_served(peer: u32, own: u32)
    ensures
        owned(Some(own), Some(own)),
        peer != own ==> !owned(Some(peer), Some(own)),
        !owned(None, Some(own)),
        !owned(Some(peer), None),
        !owned(None, None),
{
}

/// Whether a client runs as the daemon's own user. Where either user is not
/// known, the client is refused.
pub fn peer_is_owner(peer_uid: Option<u32>, own_uid: Option<u32>) -> (r: bool)
    ensures
        r == owned(peer_uid, own_uid),
{
    match (peer_uid, own_uid) {
        (Some(peer), Some(own)) => peer == own,
        _ => false,
    }
}

/// The endpoint lies below the runtime directory of the user where there is
/// one; elsewhere it bears the number of the user, so that no two users share
/// one.
pub proof fn law_endpoints_belong_to_one_user(dir: Seq<char>, a: u32, b: u32)
    requires
        dir.len() > 0,
    ensures
        socket_path(Some(dir), Some(a)) == paths::below(
            paths::below(dir, "handfast"@),
            "handfast"@ + ".sock"@,
        ),
        socket_path(None, Some(a)) == socket_path(None, Some(b)) ==> a == b,
        socket_path(None, Some(a)) == "/tmp"@ + seq!['/'] + "handfast"@ + "-"@ + text::decimal(
            a as nat,
        ) + ".sock"@,
{
    reveal_strlit("/tmp");
    reveal_strlit("handfast");
    reveal_strlit("-");
    reveal_strlit(".sock");
    let head = "/tmp"@ + seq!['/'] + "handfast"@ + "-"@;
    let (x, y) = (text::decimal(a as nat), text::decimal(b as nat));
    let (p, q) = (socket_path(None, Some(a)), socket_path(None, Some(b)));
    assert(APP_NAME@[0] == 'h');
    assert((APP_NAME@ + "-"@ + x + ".sock"@)[0] == 'h');
    assert((APP_NAME@ + "-"@ + y + ".sock"@)[0] == 'h');
    assert(p =~= head + x + ".sock"@);
    assert(q =~= head + y + ".sock"@);
    if p == q {
        assert(x.len() == y.len());
        assert(p.subrange(head.len() as int, (head.len() + x.len()) as int) =~= x);
        assert(q.subrange(head.len() as int, (head.len() + y.len()) as int) =~= y);
        text::lemma_decimal_injective(a as nat, b as nat);
    }
}

} // verus!
