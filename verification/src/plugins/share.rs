//! Share plugin (`share`).
//!
//! Classifies inbound share requests and queues them:
//!
//! * `{"url": "..."}` — the peer asked this device to open a URL;
//! * `{"text": "..."}` — the peer shared raw text;
//! * `{"filename": "...", "fileSize": N}` — an upcoming file transfer.
//!
//! Recognized bodies are queued as [`ShareItem`] values in arrival order and
//! drained via [`SharePlugin::take_pending`]. Handling never emits replies.
use super::battery::BatteryState;
use super::meta;
use super::{
    HostEnv, MetaView, Plugin, PluginFactory, PluginHost, PluginInstance, PluginMeta, PluginState,
    ReplyView,
};
use crate::json;
use crate::json::{Json, JsonView, Record};
use crate::protocol::packet::PacketView;
use super::run_commands;
use crate::protocol::packet;
use crate::protocol::{Packet, PacketIds, TYPE_SHARE};
use crate::text;
use vstd::prelude::*;

verus! {

/// One queued inbound share; `S` is the type of its texts.
#[derive(Debug, Clone, PartialEq, Eq)]
pub enum ShareItem<S = String> {
    /// URL the peer asked this device to open.
    Url(S),
    /// Raw text the peer sent over.
    Text(S),
    /// Metadata for an announced file transfer.
    FileMeta {
        /// Base name of the incoming file.
        name: S,
        /// Announced size in bytes.
        size: u64,
    },
}

impl View for ShareItem<String> {
    type V = ShareItem<Seq<char>>;

    open spec fn view(&self) -> ShareItem<Seq<char>> {
        match self {
            ShareItem::Url(s) => ShareItem::Url(s@),
            ShareItem::Text(s) => ShareItem::Text(s@),
            ShareItem::FileMeta { name, size } => ShareItem::FileMeta { name: name@, size: *size },
        }
    }
}

impl ShareItem<String> {
    /// Stable lowercase kind tag used in log fields.
    pub fn kind(&self) -> (r: &'static str)
        ensures
            r@ == match self {
                ShareItem::Url(_) => "url"@,
                ShareItem::Text(_) => "text"@,
                ShareItem::FileMeta { .. } => "file_meta"@,
            },
    {
        match self {
            ShareItem::Url(_) => "url",
            ShareItem::Text(_) => "text",
            ShareItem::FileMeta { .. } => "file_meta",
        }
    }
}

/// The share that a request body announces. `url` counts before `text`, and
/// `text` before file metadata; empty strings do not count.
pub open spec fn classified(body: JsonView) -> Option<ShareItem<Seq<char>>> {
    match (
        run_commands::usable_text(body, "url"@),
        run_commands::usable_text(body, "text"@),
        run_commands::usable_text(body, "filename"@),
        json::count_at(body, "fileSize"@),
    ) {
        (Some(url), _, _, _) => Some(ShareItem::Url(url)),
        (None, Some(t), _, _) => Some(ShareItem::Text(t)),
        (None, None, Some(name), Some(size)) => Some(ShareItem::FileMeta { name, size }),
        _ => None,
    }
}

/// What a list of shares says.
pub open spec fn items_view(v: Seq<ShareItem>) -> Seq<ShareItem<Seq<char>>> {
    v.map_values(|i: ShareItem| i@)
}

/// Queues inbound `kdeconnect.share.request` payloads.
#[derive(Debug)]
pub struct SharePlugin {
    pending_shares: Vec<ShareItem>,
}

/// Reads a string that is there and not empty.
fn str_field<'a>(body: &'a Json, key: &str) -> (r: Option<&'a str>)
    ensures
        match r {
            Some(s) => run_commands::usable_text(body@, key@) == Some(s@),
            None => run_commands::usable_text(body@, key@) is None,
        },
{
    match body.str_member(key) {
        Some(s) => if s.is_empty() {
            None
        } else {
            Some(s)
        },
        None => None,
    }
}

impl SharePlugin {
    /// The shares queued and not drained, oldest first.
    pub closed spec fn pending(&self) -> Seq<ShareItem<Seq<char>>> {
        items_view(self.pending_shares@)
    }

    /// Create a plugin instance with an empty queue.
    pub fn new() -> (r: Self)
        ensures
            r.pending() == Seq::<ShareItem<Seq<char>>>::empty(),
    {
        let r = SharePlugin { pending_shares: Vec::new() };
        assert(r.pending() =~= Seq::<ShareItem<Seq<char>>>::empty());
        r
    }

    /// Drains every share queued since the previous call, oldest first.
    pub fn take_pending(&mut self) -> (r: Vec<ShareItem>)
        ensures
            items_view(r@) == old(self).pending(),
            final(self).pending() == Seq::<ShareItem<Seq<char>>>::empty(),
    {
        let mut out: Vec<ShareItem> = Vec::new();
        std::mem::swap(&mut out, &mut self.pending_shares);
        assert(self.pending() =~= Seq::<ShareItem<Seq<char>>>::empty());
        out
    }

    /// Classifies one request body, if it matches a known share shape.
    fn classify(body: &Json) -> (r: Option<ShareItem>)
        ensures
            match r {
                Some(item) => classified(body@) == Some(item@),
                None => classified(body@) is None,
            },
    {
        if let Some(url) = str_field(body, "url") {
            return Some(ShareItem::Url(url.to_owned()));
        }
        if let Some(t) = str_field(body, "text") {
            return Some(ShareItem::Text(t.to_owned()));
        }
        match (str_field(body, "filename"), body.u64_member("fileSize")) {
            (Some(name), Some(size)) => Some(ShareItem::FileMeta { name: name.to_owned(), size }),
            _ => None,
        }
    }
}

impl Default for SharePlugin {
    fn default() -> (r: Self)
        ensures
            r.pending() == Seq::<ShareItem<Seq<char>>>::empty(),
    {
        SharePlugin::new()
    }
}

impl Plugin for SharePlugin {
    open spec fn described(&self) -> MetaView {
        meta::share_view()
    }

    open spec fn standing(&self) -> PluginState {
        PluginState::Share { pending: self.pending() }
    }

    open spec fn next(&self, pkt: PacketView, env: HostEnv) -> PluginState {
        PluginState::Share {
            pending: match classified(pkt.body) {
                Some(item) if pkt.ptype == TYPE_SHARE@ => self.pending().push(item),
                _ => self.pending(),
            },
        }
    }

    open spec fn replies(&self, pkt: PacketView, env: HostEnv) -> Seq<ReplyView> {
        Seq::empty()
    }

    open spec fn mirrored(
        &self,
        pkt: PacketView,
        env: HostEnv,
        batteries: Map<Seq<char>, BatteryState>,
    ) -> Map<Seq<char>, BatteryState> {
        batteries
    }

    fn meta(&self) -> (r: PluginMeta) {
        meta::share()
    }

    fn handle(&mut self, pkt: &Packet, host: &mut PluginHost) -> (r: Vec<Packet>) {
        if text::same(pkt.ty(), TYPE_SHARE) {
            if let Some(item) = SharePlugin::classify(&pkt.body) {
                let ghost queued = item@;
                self.pending_shares.push(item);
                assert(self.pending() =~= old(self).pending().push(queued));
            }
        }
        super::silence(host)
    }
}

/// Builds an outbound packet asking the peer to open `url`.
pub fn send_url(ids: &mut PacketIds, url: &str) -> (r: Packet)
    ensures
        r@ == packet::plain_packet(
            packet::successor(old(ids).latest()),
            TYPE_SHARE@,
            JsonView::Object(
                Map::<Seq<char>, JsonView>::empty().insert("url"@, JsonView::Str(url@)),
            ),
        ),
        final(ids).latest() == r.id,
{
    Packet::new(ids, TYPE_SHARE, Record::new().with("url", Json::text(url)).done())
}

/// Builds an outbound packet delivering raw `content` to the peer.
pub fn send_text(ids: &mut PacketIds, content: &str) -> (r: Packet)
    ensures
        r@ == packet::plain_packet(
            packet::successor(old(ids).latest()),
            TYPE_SHARE@,
            JsonView::Object(
                Map::<Seq<char>, JsonView>::empty().insert("text"@, JsonView::Str(content@)),
            ),
        ),
        final(ids).latest() == r.id,
{
    Packet::new(ids, TYPE_SHARE, Record::new().with("text", Json::text(content)).done())
}

/// A URL that was sent is classified as that URL by the receiving side, and a
/// text as that text; only the empty ones are not recognized.
pub proof fn law_sent_shares_are_recognized(content: Seq<char>)
    requires
        content.len() > 0,
    ensures
        classified(
            JsonView::Object(
                Map::<Seq<char>, JsonView>::empty().insert("url"@, JsonView::Str(content)),
            ),
        ) == Some(ShareItem::Url(content)),
        classified(
            JsonView::Object(
                Map::<Seq<char>, JsonView>::empty().insert("text"@, JsonView::Str(content)),
            ),
        ) == Some(ShareItem::Text(content)),
{
    reveal_strlit("url");
    reveal_strlit("text");
    assert("url"@.len() == 3 && "text"@.len() == 4);
}

/// Builds [`SharePlugin`] instances.
#[derive(Debug, Clone, Copy)]
pub struct ShareFactory;

impl PluginFactory for ShareFactory {
    open spec fn describes(&self) -> MetaView {
        meta::share_view()
    }

    open spec fn initial(&self) -> PluginState {
        PluginState::Share { pending: Seq::empty() }
    }

    fn meta(&self) -> (r: PluginMeta) {
        meta::share()
    }

    fn create(&self) -> (r: PluginInstance) {
        PluginInstance::Share(SharePlugin::new())
    }
}

/// What the peer shares is queued behind what was shared before: a URL where
/// it gives one, else a text where it gives one, else the file that it
/// announces with name and size. Texts that are empty do not count, a body
/// without any of these is dropped, and nothing is answered.
pub proof fn law_shares_are_queued_in_order(
    plugin: SharePlugin,
    pkt: PacketView,
    env: HostEnv,
    content: Seq<char>,
    size: u64,
)
    ensures
        plugin.next(pkt, env) is Share,
        ({
            let gives = |key: Seq<char>, t: Seq<char>|
                json::text_at(pkt.body, key) == Some(t) && t.len() > 0;
            let lacks = |key: Seq<char>|
                forall|t: Seq<char>| json::text_at(pkt.body, key) == Some(t) ==> t.len() == 0;
            let before = plugin.pending();
            let after = plugin.next(pkt, env)->pending;
            &&& pkt.ptype == TYPE_SHARE@ && gives("url"@, content) ==> after == before.push(
                ShareItem::Url(content),
            )
            &&& pkt.ptype == TYPE_SHARE@ && lacks("url"@) && gives("text"@, content) ==> after
                == before.push(ShareItem::Text(content))
            &&& pkt.ptype == TYPE_SHARE@ && lacks("url"@) && lacks("text"@) && gives(
                "filename"@,
                content,
            ) && json::count_at(pkt.body, "fileSize"@) == Some(size) ==> after == before.push(
                ShareItem::FileMeta { name: content, size },
            )
            &&& lacks("url"@) && lacks("text"@) && (lacks("filename"@) || json::count_at(
                pkt.body,
                "fileSize"@,
            ) is None) ==> after == before
            &&& pkt.ptype != TYPE_SHARE@ ==> after == before
        }),
        plugin.replies(pkt, env).len() == 0,
{
}

} // verus!
