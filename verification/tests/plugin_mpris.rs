use handfast::json::Json;
use handfast::plugins::mpris::{MprisAction, MprisFactory, MprisPlugin};
use handfast::plugins::{Plugin, PluginFactory, PluginHost};
use handfast::protocol::{Packet, PacketIds, TYPE_MPRIS_REQUEST};

/// Parse a JSON document.
fn json(text: &str) -> Json {
    Json::parse(text.as_bytes()).expect("valid JSON")
}

/// A packet with a fresh id.
fn packet(ty: &str, body: Json) -> Packet {
    Packet::new(&mut PacketIds::new(), ty, body)
}

/// Handling with a host of its own.
trait Quick {
    fn quick(&mut self, packet: &Packet) -> Vec<Packet>;
}

impl<P: Plugin> Quick for P {
    fn quick(&mut self, packet: &Packet) -> Vec<Packet> {
        self.handle(packet, &mut PluginHost::new(1_700_000_000_000))
    }
}

/// Both documents say the same, whatever the order of their members.
fn assert_json(found: &Json, expected: &str) {
    assert_eq!(
        String::from_utf8(found.render()),
        String::from_utf8(json(expected).render())
    );
}

/// A member of an object.
fn member<'a>(body: &'a Json, key: &str) -> &'a Json {
    body.get(key).expect("member")
}

fn request(player: &str, action: &str) -> Packet {
    let body = format!(r#"{{"player": "{player}", "action": "{action}"}}"#);
    packet(TYPE_MPRIS_REQUEST, json(&body))
}

#[test]
fn parses_every_valid_action_and_echoes_with_ack() {
    let cases = [
        ("Play", MprisAction::Play),
        ("Pause", MprisAction::Pause),
        ("PlayPause", MprisAction::PlayPause),
        ("Stop", MprisAction::Stop),
        ("Next", MprisAction::Next),
        ("Previous", MprisAction::Previous),
    ];
    for (raw, expected) in cases {
        assert_eq!(MprisAction::parse(raw), Some(expected));
        assert_eq!(expected.as_str(), raw);
    }

    let mut plugin = MprisPlugin::new();
    let replies = plugin.quick(&request("Spotify", "PlayPause"));
    assert_eq!(replies.len(), 1);
    assert_eq!(replies[0].ty(), TYPE_MPRIS_REQUEST);
    assert_json(member(&replies[0].body, "player"), r#""Spotify""#);
    assert_json(member(&replies[0].body, "action"), r#""PlayPause""#);
    assert_json(member(&replies[0].body, "ack"), "true");
    assert_eq!(plugin.last_known_player(), Some("Spotify"));
}

#[test]
fn invalid_action_yields_no_replies_and_no_state_change() {
    let mut plugin = MprisPlugin::new();
    for bad in ["Loud", "play", "", "PLAY"] {
        assert!(plugin.quick(&request("mpv", bad)).is_empty(), "{bad}");
    }
    assert!(plugin
        .quick(&packet(TYPE_MPRIS_REQUEST, json(r#"{"player": "mpv"}"#)))
        .is_empty());
    assert!(plugin
        .quick(&packet(
            TYPE_MPRIS_REQUEST,
            json(r#"{"player": 7, "action": "Play"}"#)
        ))
        .is_empty());
    assert!(plugin.last_known_player().is_none());
}

#[test]
fn auto_resolves_to_last_known_player() {
    let mut plugin = MprisPlugin::new();
    assert!(plugin.quick(&request("mpv", "Play")).len() == 1);
    let replies = plugin.quick(&request("auto", "Pause"));
    assert_eq!(replies.len(), 1);
    assert_json(member(&replies[0].body, "player"), r#""mpv""#);
    assert_json(member(&replies[0].body, "action"), r#""Pause""#);
    assert_json(member(&replies[0].body, "ack"), "true");
    assert_eq!(plugin.last_known_player(), Some("mpv"));
}

#[test]
fn unknown_players_are_rejected() {
    let mut plugin = MprisPlugin::new();
    assert!(plugin.quick(&request("auto", "Play")).is_empty());
    assert!(plugin.last_known_player().is_none());
    assert!(plugin
        .quick(&packet("kdeconnect.mpris", json(r#"{"player": "mpv"}"#)))
        .is_empty());
    assert!(plugin
        .quick(&packet("kdeconnect.battery", json(r#"{}"#)))
        .is_empty());
}

#[test]
fn mpris_factory_builds_fresh_instances() {
    let a = MprisFactory.create();
    let b = MprisFactory.create();
    assert_eq!(a.meta().name, "mpris");
    assert_eq!(b.meta().name, "mpris");
}
