use handfast::json::Json;
use handfast::plugins::telephony::{TelephonyFactory, TelephonyPlugin, EVENT_MISSED_CALL, EVENT_RINGING};
use handfast::plugins::{Plugin, PluginFactory, PluginHost};
use handfast::protocol::{Packet, PacketIds, TYPE_MPRIS_REQUEST, TYPE_PING, TYPE_TELEPHONY};

/// Parse a JSON document.
fn json(text: &str) -> Json {
    Json::parse(text.as_bytes()).expect("valid JSON")
}

/// A packet with a fresh id.
fn packet(ty: &str, body: Json) -> Packet {
    Packet::new(&mut PacketIds::new(), ty, body)
}

/// Handling with a host of its own.
trait Quick {
    fn quick(&mut self, packet: &Packet) -> Vec<Packet>;
}

impl<P: Plugin> Quick for P {
    fn quick(&mut self, packet: &Packet) -> Vec<Packet> {
        self.handle(packet, &mut PluginHost::new(1_700_000_000_000))
    }
}

/// Both documents say the same, whatever the order of their members.
fn assert_json(found: &Json, expected: &str) {
    assert_eq!(
        String::from_utf8(found.render()),
        String::from_utf8(json(expected).render())
    );
}

/// A member of an object.
fn member<'a>(body: &'a Json, key: &str) -> &'a Json {
    body.get(key).expect("member")
}

fn ringing() -> Packet {
    packet(
        TYPE_TELEPHONY,
        json(r#"{"event": "ringing", "phoneNumber": "+15550100", "contactName": "Ada"}"#),
    )
}

#[test]
fn ringing_emits_playpause_suggestion_when_configured() {
    let mut plugin = TelephonyPlugin::new().with_pause_music(true);
    let replies = plugin.quick(&ringing());
    assert_eq!(replies.len(), 1);
    assert_eq!(replies[0].ty(), TYPE_MPRIS_REQUEST);
    assert_json(member(&replies[0].body, "action"), r#""PlayPause""#);
    assert_json(member(&replies[0].body, "player"), r#""""#);
}

#[test]
fn ringing_is_silent_by_default_but_still_tracked() {
    let mut plugin = TelephonyPlugin::new();
    assert!(plugin.quick(&ringing()).is_empty());
    let (state, number) = plugin.last_event().expect("ringing must be tracked");
    assert_eq!(state, EVENT_RINGING);
    assert_eq!(number, "+15550100");
}

#[test]
fn sms_talking_and_missedcall_are_tracked_without_replies() {
    let bodies = [
        json(r#"{"event": "sms", "phoneNumber": "+15550101", "messageBody": "hi"}"#),
        json(r#"{"event": "talking", "phoneNumber": "+15550100"}"#),
        json(r#"{"event": "missedCall", "phoneNumber": "+15550102"}"#),
    ];
    let mut plugin = TelephonyPlugin::new().with_pause_music(true);
    for body in &bodies {
        assert!(plugin
            .quick(&packet(TYPE_TELEPHONY, body.clone()))
            .is_empty());
    }
    let (state, number) = plugin.last_event().expect("events must be tracked");
    assert_eq!(state, EVENT_MISSED_CALL);
    assert_eq!(number, "+15550102");
}

#[test]
fn missing_phone_number_degrades_to_empty_string() {
    let mut plugin = TelephonyPlugin::new();
    plugin.quick(&packet(TYPE_TELEPHONY, json(r#"{"event": "sms"}"#)));
    let (_, number) = plugin.last_event().expect("event must be tracked");
    assert_eq!(number, "");
}

#[test]
fn unknown_events_are_tracked_without_replies() {
    let mut plugin = TelephonyPlugin::new().with_pause_music(true);
    let stop = packet(TYPE_TELEPHONY, json(r#"{"event": "stopRinging"}"#));
    assert!(plugin.quick(&stop).is_empty());
    assert_eq!(
        plugin.last_event().map(|(state, _)| state),
        Some("stopRinging".to_owned())
    );
}

#[test]
fn malformed_bodies_never_panic_or_change_state() {
    let bodies = vec![
        json(r#"null"#),
        json(r#"{}"#),
        json(r#"{"event": null}"#),
        json(r#"{"event": 42}"#),
        json(r#"{"event": ["ringing"]}"#),
        json(r#"{"event": {"k": "ringing"}}"#),
        json(r#"{"phoneNumber": "+15550100"}"#),
        json(r#""not an object""#),
        json(r#"[]"#),
    ];
    let mut plugin = TelephonyPlugin::new().with_pause_music(true);
    for body in bodies {
        assert!(
            plugin.quick(&packet(TYPE_TELEPHONY, body)).is_empty(),
            "garbage must not produce replies"
        );
    }
    assert!(plugin.last_event().is_none(), "garbage must not be tracked");
}

#[test]
fn foreign_packet_types_are_ignored() {
    let mut plugin = TelephonyPlugin::new();
    assert!(plugin.quick(&packet(TYPE_PING, json(r#"{}"#))).is_empty());
    assert!(plugin
        .quick(&packet("kdeconnect.battery", json(r#"{"level": 5}"#)))
        .is_empty());
    assert!(plugin.last_event().is_none());
}

#[test]
fn factory_builds_fresh_instances_with_default_config() {
    assert_eq!(TelephonyFactory.meta().name, "telephony");
    let mut first = TelephonyFactory.create();
    let mut second = TelephonyFactory.create();
    // Both fresh instances start untracked and silent on ring.
    for plugin in [&mut first, &mut second] {
        assert!(plugin.quick(&ringing()).is_empty());
    }
}
