//! Notifications relay.
//!
//! Relays desktop notifications to the paired phone and handles the
//! reply/dismiss actions coming back.
use super::battery::BatteryState;
use super::{
    HostEnv, MetaView, Plugin, PluginFactory, PluginHost, PluginInstance, PluginMeta, PluginState,
    ReplyView,
};
use crate::json;
use crate::json::{Json, JsonView, Record};
use crate::ordered::TextMap;
use crate::protocol::packet::PacketView;
use crate::protocol::{Packet, TYPE_NOTIFICATION, TYPE_NOTIFICATION_REQUEST};
use crate::text;
use vstd::prelude::*;

verus! {

/// Metadata of the notifications relay.
pub open spec fn notifications_view() -> MetaView {
    MetaView {
        name: "notifications"@,
        title: "Notification sync"@,
        incoming: seq![TYPE_NOTIFICATION@, TYPE_NOTIFICATION_REQUEST@],
        outgoing: seq![TYPE_NOTIFICATION@],
        default_enabled: true,
        requires_wayland: false,
        requires_dbus: true,
    }
}

/// Metadata of the notifications relay.
pub fn notifications() -> (r: PluginMeta)
    ensures
        r@ == notifications_view(),
{
    let r = PluginMeta {
        name: "notifications",
        title: "Notification sync",
        incoming: vec![TYPE_NOTIFICATION, TYPE_NOTIFICATION_REQUEST],
        outgoing: vec![TYPE_NOTIFICATION],
        default_enabled: true,
        requires_wayland: false,
        requires_dbus: true,
    };
    assert(r@ =~= notifications_view());
    r
}

/// The text that `body` holds under `key`; empty where it holds none.
pub open spec fn text_or_empty(body: JsonView, key: Seq<char>) -> Seq<char> {
    match json::text_at(body, key) {
        Some(s) => s,
        None => Seq::empty(),
    }
}

/// The text that `body` holds under `key`; empty where it holds none.
pub(crate) fn str_or_empty(body: &Json, key: &str) -> (r: String)
    ensures
        r@ == text_or_empty(body@, key@),
{
    match body.str_member(key) {
        Some(s) => s.to_owned(),
        None => String::new(),
    }
}

/// Whether a packet carries a notification worth forwarding: one with a title
/// or a text.
pub open spec fn forwards(pkt: PacketView) -> bool {
    pkt.ptype == TYPE_NOTIFICATION@ && (text_or_empty(pkt.body, "title"@).len() > 0
        || text_or_empty(pkt.body, "text"@).len() > 0)
}

/// The notification that a packet is forwarded as.
pub open spec fn forwarded_json(body: JsonView) -> JsonView {
    JsonView::Object(
        Map::<Seq<char>, JsonView>::empty()
            .insert("id"@, JsonView::Str(text_or_empty(body, "id"@)))
            .insert("appName"@, JsonView::Str(text_or_empty(body, "appName"@)))
            .insert("title"@, JsonView::Str(text_or_empty(body, "title"@)))
            .insert("text"@, JsonView::Str(text_or_empty(body, "text"@))),
    )
}

/// The notification ids that are routed after a packet.
pub open spec fn routed_after(routed: Set<Seq<char>>, pkt: PacketView) -> Set<Seq<char>> {
    if forwards(pkt) && text_or_empty(pkt.body, "id"@).len() > 0 {
        routed.insert(text_or_empty(pkt.body, "id"@))
    } else if pkt.ptype == TYPE_NOTIFICATION_REQUEST@ && text_or_empty(pkt.body, "action"@)
        == "dismiss"@ && text_or_empty(pkt.body, "key"@).len() > 0 {
        routed.remove(text_or_empty(pkt.body, "key"@))
    } else {
        routed
    }
}

/// Relays notification packets between desktop and phone.
///
/// Tracks the ids of forwarded notifications so that dismissals can be routed.
#[derive(Debug)]
pub struct NotificationsPlugin {
    id_map: TextMap<String>,
}

impl NotificationsPlugin {
    /// The ids of the notifications that were forwarded and not dismissed.
    pub closed spec fn routed(&self) -> Set<Seq<char>> {
        self.id_map@.dom()
    }

    /// A relay that tracks nothing.
    pub fn new() -> (r: Self)
        ensures
            r.routed() == Set::<Seq<char>>::empty(),
    {
        let r = NotificationsPlugin { id_map: TextMap::new() };
        assert(r.routed() =~= Set::<Seq<char>>::empty());
        r
    }

    /// Whether the notification `id` was forwarded and not dismissed.
    pub fn is_routed(&self, id: &str) -> (r: bool)
        ensures
            r == self.routed().contains(id@),
    {
        self.id_map.contains_key(id)
    }

    /// How many notifications were forwarded and not dismissed.
    pub fn routed_count(&self) -> (r: usize)
        ensures
            r == self.routed().len(),
    {
        self.id_map.len()
    }
}

impl Default for NotificationsPlugin {
    fn default() -> (r: Self)
        ensures
            r.routed() == Set::<Seq<char>>::empty(),
    {
        NotificationsPlugin::new()
    }
}

proof fn lemma_notification_types()
    ensures
        TYPE_NOTIFICATION@ != TYPE_NOTIFICATION_REQUEST@,
{
    reveal_strlit("kdeconnect.notification");
    reveal_strlit("kdeconnect.notification.request");
    assert(TYPE_NOTIFICATION@.len() == 23);
    assert(TYPE_NOTIFICATION_REQUEST@.len() == 31);
}

impl Plugin for NotificationsPlugin {
    open spec fn described(&self) -> MetaView {
        notifications_view()
    }

    open spec fn standing(&self) -> PluginState {
        PluginState::Notifications { routed: self.routed() }
    }

    open spec fn next(&self, pkt: PacketView, env: HostEnv) -> PluginState {
        PluginState::Notifications { routed: routed_after(self.routed(), pkt) }
    }

    open spec fn replies(&self, pkt: PacketView, env: HostEnv) -> Seq<ReplyView> {
        if forwards(pkt) {
            seq![ReplyView { ptype: TYPE_NOTIFICATION@, body: forwarded_json(pkt.body) }]
        } else {
            Seq::empty()
        }
    }

    open spec fn mirrored(
        &self,
        pkt: PacketView,
        env: HostEnv,
        batteries: Map<Seq<char>, BatteryState>,
    ) -> Map<Seq<char>, BatteryState> {
        batteries
    }

    fn meta(&self) -> (r: PluginMeta) {
        notifications()
    }

    fn handle(&mut self, pkt: &Packet, host: &mut PluginHost) -> (r: Vec<Packet>) {
        proof {
            lemma_notification_types();
        }
        let body = &pkt.body;
        if text::same(pkt.ty(), TYPE_NOTIFICATION) {
            let app_name = str_or_empty(body, "appName");
            let title = str_or_empty(body, "title");
            let content = str_or_empty(body, "text");
            let id = str_or_empty(body, "id");
            if title.as_str().is_empty() && content.as_str().is_empty() {
                return super::silence(host);
            }
            if !id.as_str().is_empty() {
                let _ = self.id_map.insert(id.clone(), id.clone());
                assert(self.routed() =~= old(self).routed().insert(id@));
            }
            let payload = Record::new()
                .with("id", Json::text(id.as_str()))
                .with("appName", Json::text(app_name.as_str()))
                .with("title", Json::text(title.as_str()))
                .with("text", Json::text(content.as_str()))
                .done();
            return super::answer(host, TYPE_NOTIFICATION, payload);
        }
        if text::same(pkt.ty(), TYPE_NOTIFICATION_REQUEST) {
            let action = str_or_empty(body, "action");
            let key = str_or_empty(body, "key");
            if text::same(action.as_str(), "dismiss") && !key.as_str().is_empty() {
                let _ = self.id_map.remove(key.as_str());
                assert(self.routed() =~= old(self).routed().remove(key@));
            }
        }
        super::silence(host)
    }
}

/// Builds [`NotificationsPlugin`] instances.
#[derive(Debug, Clone, Copy)]
pub struct NotificationsFactory;

impl PluginFactory for NotificationsFactory {
    open spec fn describes(&self) -> MetaView {
        notifications_view()
    }

    open spec fn initial(&self) -> PluginState {
        PluginState::Notifications { routed: Set::empty() }
    }

    fn meta(&self) -> (r: PluginMeta) {
        notifications()
    }

    fn create(&self) -> (r: PluginInstance) {
        PluginInstance::Notifications(NotificationsPlugin::new())
    }
}

/// A notification is relayed as it came: where it has a title or a text, one
/// notification goes out that holds under each of the four keys the text that
/// the received one holds there, and the empty text where it holds none.
/// Otherwise nothing goes out.
pub proof fn law_notifications_are_relayed_unchanged(
    plugin: NotificationsPlugin,
    pkt: PacketView,
    env: HostEnv,
    key: Seq<char>,
)
    requires
        pkt.ptype == TYPE_NOTIFICATION@,
        key == "id"@ || key == "appName"@ || key == "title"@ || key == "text"@,
    ensures
        ({
            let worth = (json::text_at(pkt.body, "title"@) is Some && json::text_at(
                pkt.body,
                "title"@,
            )->0.len() > 0) || (json::text_at(pkt.body, "text"@) is Some && json::text_at(
                pkt.body,
                "text"@,
            )->0.len() > 0);
            let out = plugin.replies(pkt, env);
            &&& (out.len() == 1) == worth
            &&& out.len() != 1 ==> out.len() == 0
            &&& out.len() == 1 ==> out[0].ptype == TYPE_NOTIFICATION@
            &&& out.len() == 1 ==> (json::text_at(pkt.body, key) matches Some(t) ==> json::text_at(
                out[0].body,
                key,
            ) == Some(t))
            &&& out.len() == 1 && json::text_at(pkt.body, key) is None ==> json::text_at(
                out[0].body,
                key,
            ) == Some(Seq::<char>::empty())
        }),
{
    lemma_notification_keys();
}

/// The relay knows which notifications are out: one that was forwarded with an
/// id is known until it is dismissed by that id, a dismissal is not answered,
/// and what is known of other notifications stays.
pub proof fn law_dismissals_concern_one_notification(
    plugin: NotificationsPlugin,
    pkt: PacketView,
    env: HostEnv,
    id: Seq<char>,
    other: Seq<char>,
)
    requires
        id.len() > 0,
        other != id,
    ensures
        plugin.next(pkt, env) is Notifications,
        ({
            let known = plugin.next(pkt, env)->routed;
            let goes_out = pkt.ptype == TYPE_NOTIFICATION@ && json::text_at(pkt.body, "id"@)
                == Some(id) && plugin.replies(pkt, env).len() > 0;
            let dismissed = pkt.ptype == TYPE_NOTIFICATION_REQUEST@ && json::text_at(
                pkt.body,
                "action"@,
            ) == Some("dismiss"@) && json::text_at(pkt.body, "key"@) == Some(id);
            &&& goes_out ==> known.contains(id)
            &&& dismissed ==> !known.contains(id) && plugin.replies(pkt, env).len() == 0
            &&& goes_out || dismissed ==> known.contains(other) == plugin.routed().contains(other)
        }),
        pkt.ptype != TYPE_NOTIFICATION@ && json::text_at(pkt.body, "action"@) != Some("dismiss"@)
            ==> plugin.next(pkt, env) == plugin.standing() && plugin.replies(pkt, env).len() == 0,
        pkt.ptype == TYPE_NOTIFICATION@ && plugin.replies(pkt, env).len() == 0 ==> plugin.next(
            pkt,
            env,
        ) == plugin.standing(),
        pkt.ptype != TYPE_NOTIFICATION@ && pkt.ptype != TYPE_NOTIFICATION_REQUEST@
            ==> plugin.next(pkt, env) == plugin.standing() && plugin.replies(pkt, env).len() == 0,
{
    lemma_notification_types();
    reveal_strlit("dismiss");
    assert("dismiss"@.len() == 7);
}

/// The names differ from one another.
proof fn lemma_notification_keys()
    ensures
        "id"@ != "appName"@,
        "id"@ != "title"@,
        "id"@ != "text"@,
        "appName"@ != "title"@,
        "appName"@ != "text"@,
        "title"@ != "text"@,
{
    reveal_strlit("id");
    reveal_strlit("appName");
    reveal_strlit("title");
    reveal_strlit("text");
    assert("id"@.len() == 2);
    assert("appName"@.len() == 7);
    assert("title"@.len() == 5);
    assert("text"@.len() == 4);
}

} // verus!
