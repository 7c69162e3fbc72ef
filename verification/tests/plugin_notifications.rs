use handfast::json::Json;
use handfast::plugins::notifications::NotificationsPlugin;
use handfast::plugins::{Plugin, PluginHost};
use handfast::protocol::{Packet, PacketIds, TYPE_NOTIFICATION, TYPE_NOTIFICATION_REQUEST, TYPE_PING};

/// Parse a JSON document.
fn json(text: &str) -> Json {
    Json::parse(text.as_bytes()).expect("valid JSON")
}

/// A packet with a fresh id.
fn packet(ty: &str, body: Json) -> Packet {
    Packet::new(&mut PacketIds::new(), ty, body)
}

/// Handling with a host of its own.
trait Quick {
    fn quick(&mut self, packet: &Packet) -> Vec<Packet>;
}

impl<P: Plugin> Quick for P {
    fn quick(&mut self, packet: &Packet) -> Vec<Packet> {
        self.handle(packet, &mut PluginHost::new(1_700_000_000_000))
    }
}

#[test]
fn forwards_notification_content() {
    let mut p = NotificationsPlugin::new();
    let pkt = packet(
        TYPE_NOTIFICATION,
        json(r#"{ "id": "42", "appName": "kmail", "title": "New mail", "text": "You have 1 unread message" }"#),
    );
    let replies = p.quick(&pkt);
    assert_eq!(replies.len(), 1);
    assert_eq!(replies[0].ptype, TYPE_NOTIFICATION);
    assert_eq!(
        replies[0].body.get("appName").and_then(|v| v.as_str()),
        Some("kmail")
    );
}

#[test]
fn skips_empty_notifications() {
    let mut p = NotificationsPlugin::new();
    let pkt = packet(
        TYPE_NOTIFICATION,
        json(r#"{ "id": "", "appName": "", "title": "", "text": "" }"#),
    );
    assert!(p.quick(&pkt).is_empty());
}

#[test]
fn dismiss_removes_tracked_id() {
    let mut p = NotificationsPlugin::new();
    let fwd = packet(
        TYPE_NOTIFICATION,
        json(r#"{ "id": "99", "appName": "a", "title": "t", "text": "x" }"#),
    );
    let _ = p.quick(&fwd);
    assert_eq!(p.routed_count(), 1);

    let dismiss = packet(
        TYPE_NOTIFICATION_REQUEST,
        json(r#"{ "action": "dismiss", "key": "99" }"#),
    );
    let _ = p.quick(&dismiss);
    assert_eq!(p.routed_count(), 0, "dismiss should remove the id");
}

#[test]
fn ignores_foreign_packets() {
    let mut p = NotificationsPlugin::new();
    let pkt = packet(TYPE_PING, json(r#"{}"#));
    assert!(p.quick(&pkt).is_empty());
}

#[test]
fn forwarded_ids_are_routed_until_dismissed() {
    let mut p = NotificationsPlugin::new();
    p.quick(&packet(TYPE_NOTIFICATION, json(r#"{"id":"42","title":"hi"}"#)));
    assert!(p.is_routed("42") && !p.is_routed("43"));
    p.quick(&packet(TYPE_NOTIFICATION_REQUEST, json(r#"{"action":"dismiss","key":"42"}"#)));
    assert!(!p.is_routed("42"));
}
