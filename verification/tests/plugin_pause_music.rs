use handfast::json::Json;
use handfast::plugins::pause_music::{PauseMusicFactory, PauseMusicPlugin};
use handfast::plugins::{Plugin, PluginFactory, PluginHost};
use handfast::protocol::{Packet, PacketIds, TYPE_MPRIS, TYPE_MPRIS_REQUEST};

/// Parse a JSON document.
fn json(text: &str) -> Json {
    Json::parse(text.as_bytes()).expect("valid JSON")
}

/// A packet with a fresh id.
fn packet(ty: &str, body: Json) -> Packet {
    Packet::new(&mut PacketIds::new(), ty, body)
}

/// Handling with a host of its own.
trait Quick {
    fn quick(&mut self, packet: &Packet) -> Vec<Packet>;
}

impl<P: Plugin> Quick for P {
    fn quick(&mut self, packet: &Packet) -> Vec<Packet> {
        self.handle(packet, &mut PluginHost::new(1_700_000_000_000))
    }
}

/// Both documents say the same, whatever the order of their members.
fn assert_json(found: &Json, expected: &str) {
    assert_eq!(
        String::from_utf8(found.render()),
        String::from_utf8(json(expected).render())
    );
}

/// A member of an object.
fn member<'a>(body: &'a Json, key: &str) -> &'a Json {
    body.get(key).expect("member")
}

fn player_list(players: &[&str]) -> Json {
    let names: Vec<String> = players
        .iter()
        .map(|name| format!(r#"{{"name": "{name}"}}"#))
        .collect();
    json(&format!(r#"{{"playerList": [{}]}}"#, names.join(", ")))
}

#[test]
fn learns_players_from_both_packet_shapes() {
    let mut plugin = PauseMusicPlugin::new();
    assert!(plugin.known_players().is_empty());
    plugin.quick(&packet(TYPE_MPRIS, player_list(&["spotify", "vlc"])));
    plugin.quick(&packet(
        TYPE_MPRIS,
        json(r#"{"player": "mpv", "isPlaying": true}"#),
    ));
    assert_eq!(plugin.known_players(), ["mpv", "spotify", "vlc"]);
}

#[test]
fn ignores_malformed_mpris_bodies() {
    let mut plugin = PauseMusicPlugin::new();
    for body in [
        json(r#"null"#),
        json(r#""players""#),
        json(r#"[]"#),
        json(r#"{}"#),
        json(r#"{"playerList": "nope"}"#),
        json(r#"{"playerList": [1, null, {}]}"#),
        json(r#"{"playerList": [{"name": 7}]}"#),
        json(r#"{"player": true}"#),
        json(r#"{"player": ""}"#),
    ] {
        plugin.quick(&packet(TYPE_MPRIS, body.clone()));
        assert!(plugin.known_players().is_empty(), "body {body:?} leaked in");
    }
}

#[test]
fn ignores_foreign_packet_types_without_learning() {
    let mut plugin = PauseMusicPlugin::new();
    assert!(plugin
        .quick(&packet("kdeconnect.ping", player_list(&["spotify"])))
        .is_empty());
    assert!(plugin
        .quick(&packet(TYPE_MPRIS_REQUEST, player_list(&["spotify"])))
        .is_empty());
    assert!(plugin.known_players().is_empty());
}

#[test]
fn pause_emits_pause_for_every_known_player() {
    let mut plugin = PauseMusicPlugin::new();
    assert!(plugin.pause_all(&mut PacketIds::new()).is_empty(), "nothing known yet");

    plugin.quick(&packet(TYPE_MPRIS, player_list(&["vlc", "spotify"])));
    let packets = plugin.pause_all(&mut PacketIds::new());
    assert_eq!(packets.len(), 2);
    assert_eq!(packets[0].ty(), TYPE_MPRIS_REQUEST);
    assert_json(member(&packets[0].body, "player"), r#""spotify""#);
    assert_json(member(&packets[0].body, "action"), r#""Pause""#);
    assert_json(member(&packets[1].body, "player"), r#""vlc""#);
    assert_json(member(&packets[1].body, "action"), r#""Pause""#);
}

#[test]
fn resume_replays_only_previously_paused_and_clears_set() {
    let mut plugin = PauseMusicPlugin::new();
    // Only spotify was known when the call started.
    plugin.quick(&packet(TYPE_MPRIS, player_list(&["spotify"])));
    assert_eq!(plugin.pause_all(&mut PacketIds::new()).len(), 1);

    // mpv/vlc show up mid-call; a resume must not resurrect them.
    plugin.quick(&packet(TYPE_MPRIS, player_list(&["mpv", "vlc"])));
    let resumed = plugin.resume_all(&mut PacketIds::new());
    assert_eq!(resumed.len(), 1);
    assert_eq!(resumed[0].ty(), TYPE_MPRIS_REQUEST);
    assert_json(&resumed[0].body, r#"{"player": "spotify", "action": "Play"}"#);

    // The set drains: a second resume resumes nothing...
    assert!(plugin.resume_all(&mut PacketIds::new()).is_empty());
    // ...but knowledge of players persists.
    assert_eq!(plugin.known_players(), ["mpv", "spotify", "vlc"]);
}

#[test]
fn repeated_pauses_collapse_into_single_resume() {
    let mut plugin = PauseMusicPlugin::new();
    plugin.quick(&packet(TYPE_MPRIS, player_list(&["spotify"])));
    assert_eq!(plugin.pause_all(&mut PacketIds::new()).len(), 1);
    assert_eq!(plugin.pause_all(&mut PacketIds::new()).len(), 1);
    let resumed = plugin.resume_all(&mut PacketIds::new());
    assert_eq!(resumed.len(), 1);
    assert_json(&resumed[0].body, r#"{"player": "spotify", "action": "Play"}"#);
}

#[test]
fn pause_music_handle_is_always_silent() {
    let mut plugin = PauseMusicPlugin::new();
    assert!(plugin
        .quick(&packet(TYPE_MPRIS, player_list(&["spotify"])))
        .is_empty());
}

#[test]
fn pause_music_factory_builds_fresh_instances() {
    let a = PauseMusicFactory.create();
    let b = PauseMusicFactory.create();
    assert_eq!(a.meta().name, "pause_music");
    assert_eq!(b.meta().name, "pause_music");
}
