use handfast::json::Json;
use handfast::plugins::find_my_phone::{FindMyPhoneFactory, FindMyPhonePlugin};
use handfast::plugins::{Plugin, PluginFactory, PluginHost};
use handfast::protocol::{Packet, PacketIds, TYPE_FINDMYPHONE};

/// Parse a JSON document.
fn json(text: &str) -> Json {
    Json::parse(text.as_bytes()).expect("valid JSON")
}

/// A packet with a fresh id.
fn packet(ty: &str, body: Json) -> Packet {
    Packet::new(&mut PacketIds::new(), ty, body)
}

/// Handling with a host of its own.
trait Quick {
    fn quick(&mut self, packet: &Packet) -> Vec<Packet>;
}

impl<P: Plugin> Quick for P {
    fn quick(&mut self, packet: &Packet) -> Vec<Packet> {
        self.handle(packet, &mut PluginHost::new(1_700_000_000_000))
    }
}

/// Both documents say the same, whatever the order of their members.
fn assert_json(found: &Json, expected: &str) {
    assert_eq!(
        String::from_utf8(found.render()),
        String::from_utf8(json(expected).render())
    );
}

#[test]
fn start_rings_and_echoes_request() {
    let mut plugin = FindMyPhonePlugin::new();
    assert!(!plugin.is_ringing());
    let body = json(r#"{"action": "start"}"#);
    let replies = plugin.quick(&packet(TYPE_FINDMYPHONE, body));
    assert_eq!(replies.len(), 1);
    assert_eq!(replies[0].ty(), TYPE_FINDMYPHONE);
    assert_json(&replies[0].body, r#"{"action": "start"}"#);
    assert!(plugin.is_ringing());
}

#[test]
fn stop_silences_and_echoes_request() {
    let mut plugin = FindMyPhonePlugin::new();
    plugin.quick(&packet(TYPE_FINDMYPHONE, json(r#"{"action": "start"}"#)));
    assert!(plugin.is_ringing());
    let replies = plugin.quick(&packet(TYPE_FINDMYPHONE, json(r#"{"action": "stop"}"#)));
    assert_eq!(replies.len(), 1);
    assert_eq!(replies[0].ty(), TYPE_FINDMYPHONE);
    assert_json(&replies[0].body, r#"{"action": "stop"}"#);
    assert!(!plugin.is_ringing());
}

#[test]
fn repeated_start_is_idempotent() {
    let mut plugin = FindMyPhonePlugin::new();
    plugin.quick(&packet(TYPE_FINDMYPHONE, json(r#"{"action": "start"}"#)));
    let replies = plugin.quick(&packet(TYPE_FINDMYPHONE, json(r#"{"action": "start"}"#)));
    assert_eq!(replies.len(), 1);
    assert!(plugin.is_ringing());
}

#[test]
fn unknown_or_missing_actions_are_dropped() {
    let mut plugin = FindMyPhonePlugin::new();
    for body in [
        json(r#"{"action": "dance"}"#),
        json(r#"{"action": ""}"#),
        json(r#"{}"#),
        json(r#"{"Action": "start"}"#),
        json(r#""start""#),
        json(r#"null"#),
        json(r#"[]"#),
    ] {
        let replies = plugin.quick(&packet(TYPE_FINDMYPHONE, body.clone()));
        assert!(replies.is_empty(), "body {body:?} produced replies");
        assert!(!plugin.is_ringing(), "body {body:?} flipped state");
    }
}

#[test]
fn find_my_phone_ignores_foreign_packet_types_without_state_change() {
    let mut plugin = FindMyPhonePlugin::new();
    assert!(plugin
        .quick(&packet("kdeconnect.ping", json(r#"{"action": "start"}"#)))
        .is_empty());
    assert!(plugin
        .quick(&packet(
            "kdeconnect.findmyphone.response",
            json(r#"{"action": "stop"}"#)
        ))
        .is_empty());
    assert!(!plugin.is_ringing());
}

#[test]
fn fresh_instance_starts_silent() {
    assert!(!FindMyPhonePlugin::default().is_ringing());
}

#[test]
fn find_my_phone_factory_builds_fresh_instances() {
    let a = FindMyPhoneFactory.create();
    let b = FindMyPhoneFactory.create();
    assert_eq!(a.meta().name, "findmyphone");
    assert_eq!(b.meta().name, "findmyphone");
}
