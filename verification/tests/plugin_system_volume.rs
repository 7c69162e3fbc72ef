use handfast::json::Json;
use handfast::plugins::system_volume::{volume_report, SystemVolumeFactory, SystemVolumePlugin, VolumeState};
use handfast::plugins::{Plugin, PluginFactory, PluginHost};
use handfast::protocol::{Packet, PacketIds, TYPE_SYSTEMVOLUME};

/// Parse a JSON document.
fn json(text: &str) -> Json {
    Json::parse(text.as_bytes()).expect("valid JSON")
}

/// A packet with a fresh id.
fn packet(ty: &str, body: Json) -> Packet {
    Packet::new(&mut PacketIds::new(), ty, body)
}

/// Handling with a host of its own.
trait Quick {
    fn quick(&mut self, packet: &Packet) -> Vec<Packet>;
}

impl<P: Plugin> Quick for P {
    fn quick(&mut self, packet: &Packet) -> Vec<Packet> {
        self.handle(packet, &mut PluginHost::new(1_700_000_000_000))
    }
}

/// Both documents say the same, whatever the order of their members.
fn assert_json(found: &Json, expected: &str) {
    assert_eq!(
        String::from_utf8(found.render()),
        String::from_utf8(json(expected).render())
    );
}

/// A member of an object.
fn member<'a>(body: &'a Json, key: &str) -> &'a Json {
    body.get(key).expect("member")
}

fn sink_body() -> Json {
    json(r#"{ "direction": "in", "sink_description": "Built-in Speakers", "volume": 42, "mute": false }"#)
}

#[test]
fn tracks_most_recent_state() {
    let mut plugin = SystemVolumePlugin::new();
    assert!(plugin.state().is_none());

    plugin.quick(&packet(TYPE_SYSTEMVOLUME, sink_body()));
    let state = plugin.state();
    assert_eq!(
        state,
        Some(&VolumeState {
            sink_description: Some("Built-in Speakers".to_string()),
            volume: 42,
            muted: false,
        })
    );

    plugin.quick(&packet(
        TYPE_SYSTEMVOLUME,
        json(r#"{"direction": "in", "volume": 90, "mute": true}"#),
    ));
    let state = plugin.state();
    assert_eq!(
        state,
        Some(&VolumeState {
            sink_description: None,
            volume: 90,
            muted: true,
        })
    );
}

#[test]
fn accepts_both_mute_spellings() {
    let mut plugin = SystemVolumePlugin::new();
    plugin.quick(&packet(
        TYPE_SYSTEMVOLUME,
        json(r#"{"volume": 1, "muted": true}"#),
    ));
    assert_eq!(plugin.state().map(|state| state.muted), Some(true));
    plugin.quick(&packet(
        TYPE_SYSTEMVOLUME,
        json(r#"{"volume": 2, "mute": true}"#),
    ));
    assert_eq!(plugin.state().map(|state| state.muted), Some(true));
    plugin.quick(&packet(TYPE_SYSTEMVOLUME, json(r#"{"volume": 3}"#)));
    assert_eq!(plugin.state().map(|state| state.muted), Some(false));
}

#[test]
fn clamps_out_of_range_volumes() {
    let mut plugin = SystemVolumePlugin::new();
    plugin.quick(&packet(TYPE_SYSTEMVOLUME, json(r#"{"volume": 250}"#)));
    assert_eq!(plugin.state().map(|state| state.volume), Some(100));
    plugin.quick(&packet(TYPE_SYSTEMVOLUME, json(r#"{"volume": -7}"#)));
    assert_eq!(plugin.state().map(|state| state.volume), Some(0));
    plugin.quick(&packet(TYPE_SYSTEMVOLUME, json(r#"{"volume": 33.6}"#)));
    assert_eq!(plugin.state().map(|state| state.volume), Some(34));
}

#[test]
fn ignores_malformed_bodies_without_state_change() {
    let mut plugin = SystemVolumePlugin::new();
    let bad_bodies = [
        json(r#"null"#),
        json(r#""loud""#),
        json(r#"[]"#),
        json(r#"{}"#),
        json(r#"{"volume": "42"}"#),
        json(r#"{"mute": true}"#),
        json(r#"{"direction": "in"}"#),
    ];
    for body in bad_bodies {
        plugin.quick(&packet(TYPE_SYSTEMVOLUME, body.clone()));
        assert!(plugin.state().is_none(), "body {body:?} mutated state");
    }
}

#[test]
fn system_volume_ignores_foreign_packet_types_without_state_change() {
    let mut plugin = SystemVolumePlugin::new();
    assert!(plugin
        .quick(&packet("kdeconnect.ping", json(r#"{}"#)))
        .is_empty());
    assert!(plugin
        .quick(&packet("kdeconnect.battery", json(r#"{"volume": 5}"#)))
        .is_empty());
    assert!(plugin
        .quick(&packet(
            "kdeconnect.systemvolume.request",
            json(r#"{"volume": 5}"#)
        ))
        .is_empty());
    assert!(plugin.state().is_none());
}

#[test]
fn volume_report_builds_clamped_packet() {
    let pkt = volume_report(&mut PacketIds::new(), 77, true);
    assert_eq!(pkt.ty(), TYPE_SYSTEMVOLUME);
    assert_json(&pkt.body, r#"{"direction": "in", "volume": 77, "mute": true}"#);

    let pkt = volume_report(&mut PacketIds::new(), 255, false);
    assert_json(member(&pkt.body, "volume"), r#"100"#);

    let pkt = volume_report(&mut PacketIds::new(), 0, false);
    assert_json(member(&pkt.body, "volume"), r#"0"#);
    assert_json(member(&pkt.body, "mute"), r#"false"#);
}

#[test]
fn system_volume_handle_is_always_silent() {
    let mut plugin = SystemVolumePlugin::new();
    assert!(plugin
        .quick(&packet(TYPE_SYSTEMVOLUME, sink_body()))
        .is_empty());
}

#[test]
fn system_volume_factory_builds_fresh_instances() {
    let a = SystemVolumeFactory.create();
    let b = SystemVolumeFactory.create();
    assert_eq!(a.meta().name, "system_volume");
    assert_eq!(b.meta().name, "system_volume");
}

#[test]
fn default_matches_new() {
    assert_eq!(SystemVolumePlugin::default().state(), None);
}
