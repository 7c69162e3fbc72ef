use handfast::json::Json;
use handfast::plugins::run_commands::{RunCommandsFactory, RunCommandsPlugin};
use handfast::plugins::{Plugin, PluginFactory, PluginHost};
use handfast::protocol::{Packet, PacketIds, TYPE_RUNCOMMAND, TYPE_RUNCOMMAND_REQUEST};

/// Parse a JSON document.
fn json(text: &str) -> Json {
    Json::parse(text.as_bytes()).expect("valid JSON")
}

/// A packet with a fresh id.
fn packet(ty: &str, body: Json) -> Packet {
    Packet::new(&mut PacketIds::new(), ty, body)
}

/// Handling with a host of its own.
trait Quick {
    fn quick(&mut self, packet: &Packet) -> Vec<Packet>;
}

impl<P: Plugin> Quick for P {
    fn quick(&mut self, packet: &Packet) -> Vec<Packet> {
        self.handle(packet, &mut PluginHost::new(1_700_000_000_000))
    }
}

/// Both documents say the same, whatever the order of their members.
fn assert_json(found: &Json, expected: &str) {
    assert_eq!(
        String::from_utf8(found.render()),
        String::from_utf8(json(expected).render())
    );
}

fn seeded() -> RunCommandsPlugin {
    let mut plugin = RunCommandsPlugin::new();
    plugin.set_commands(vec![
        ("screenshot".to_string(), "spectacle -b".to_string()),
        ("lock".to_string(), "loginctl lock-session".to_string()),
    ]);
    plugin
}

#[test]
fn set_commands_populates_table() {
    let plugin = seeded();
    assert_eq!(plugin.commands().len(), 2);
    assert_eq!(
        plugin.commands().get("screenshot").map(String::as_str),
        Some("spectacle -b")
    );
    assert_eq!(
        plugin.commands().get("lock").map(String::as_str),
        Some("loginctl lock-session")
    );
}

#[test]
fn set_commands_last_duplicate_name_wins() {
    let mut plugin = RunCommandsPlugin::new();
    plugin.set_commands(vec![
        ("dup".to_string(), "first".to_string()),
        ("dup".to_string(), "second".to_string()),
    ]);
    assert_eq!(plugin.commands().len(), 1);
    assert_eq!(
        plugin.commands().get("dup").map(String::as_str),
        Some("second")
    );
}

#[test]
fn known_name_request_returns_confirmation_echo() {
    let mut plugin = seeded();
    let replies = plugin.quick(&packet(
        TYPE_RUNCOMMAND_REQUEST,
        json(r#"{"name": "lock"}"#),
    ));
    assert_eq!(replies.len(), 1);
    assert_eq!(replies[0].ty(), TYPE_RUNCOMMAND_REQUEST);
    assert_json(&replies[0].body, r#"{"name": "lock", "command": "loginctl lock-session"}"#);
    assert_eq!(plugin.commands().len(), 2);
}

#[test]
fn unknown_or_malformed_requests_produce_no_echo() {
    let mut plugin = seeded();
    for body in [
        json(r#"{"name": "nope"}"#),
        json(r#"{"name": ""}"#),
        json(r#"{"name": 42}"#),
        json(r#"{"Name": "lock"}"#),
        json(r#"{}"#),
        json(r#"null"#),
        json(r#""lock""#),
        json(r#"[]"#),
    ] {
        let replies = plugin.quick(&packet(TYPE_RUNCOMMAND_REQUEST, body.clone()));
        assert!(replies.is_empty(), "body {body:?} produced an echo");
    }
    assert_eq!(plugin.commands().len(), 2);
}

#[test]
fn sync_packet_replaces_local_table_and_enables_new_lookups() {
    let mut plugin = seeded();
    plugin.quick(&packet(
        TYPE_RUNCOMMAND,
        json(r#"{ "commandList": [ {"key": "uuid-a", "name": "a", "command": "cmd-a"}, {"name": "b", "command": "cmd-b"} ] }"#),
    ));
    assert_eq!(plugin.commands().len(), 2);
    assert_eq!(
        plugin.commands().get("a").map(String::as_str),
        Some("cmd-a")
    );
    assert_eq!(plugin.commands().get("lock"), None);
    let replies = plugin.quick(&packet(TYPE_RUNCOMMAND_REQUEST, json(r#"{"name": "b"}"#)));
    assert_json(&replies[0].body, r#"{"name": "b", "command": "cmd-b"}"#);
}

#[test]
fn sync_skips_unusable_entries_and_dedups_by_name() {
    let mut plugin = RunCommandsPlugin::new();
    plugin.quick(&packet(
        TYPE_RUNCOMMAND,
        json(r#"{"commandList": [ {"name": "", "command": "skipped-empty-name"}, {"name": "ok1"}, {"name": "ok1", "command": ""}, {"name": "ok1", "command": "final"}, {"name": 7, "command": "x"}, ["not", "an", "object"], {"name": "ok2", "command": "cmd-two", "extra": [1, 2]} ]}"#),
    ));
    assert_eq!(plugin.commands().len(), 2);
    assert_eq!(
        plugin.commands().get("ok1").map(String::as_str),
        Some("final")
    );
    assert_eq!(
        plugin.commands().get("ok2").map(String::as_str),
        Some("cmd-two")
    );
}

#[test]
fn sync_with_all_entries_malformed_keeps_current_table() {
    let mut plugin = seeded();
    plugin.quick(&packet(
        TYPE_RUNCOMMAND,
        json(r#"{"commandList": [{"nope": true}, {"name": 3}]}"#),
    ));
    assert_eq!(plugin.commands().len(), 2);
}

#[test]
fn sync_with_explicitly_empty_list_clears_table() {
    let mut plugin = seeded();
    plugin.quick(&packet(TYPE_RUNCOMMAND, json(r#"{"commandList": []}"#)));
    assert!(plugin.commands().is_empty());
}

#[test]
fn sync_without_command_list_is_ignored_without_panic() {
    let mut plugin = seeded();
    for body in [
        json(r#"{}"#),
        json(r#"{"commandList": null}"#),
        json(r#"{"commandList": "nope"}"#),
        json(r#"{"commandList": {}}"#),
        json(r#"null"#),
        json(r#"[]"#),
    ] {
        let replies = plugin.quick(&packet(TYPE_RUNCOMMAND, body.clone()));
        assert!(replies.is_empty(), "body {body:?} produced replies");
    }
    assert_eq!(plugin.commands().len(), 2);
}

#[test]
fn run_commands_ignores_foreign_packet_types_without_state_change() {
    let mut plugin = seeded();
    assert!(plugin
        .quick(&packet("kdeconnect.ping", json(r#"{"name": "lock"}"#)))
        .is_empty());
    assert!(plugin
        .quick(&packet(
            "kdeconnect.share.request",
            json(r#"{"commandList": []}"#)
        ))
        .is_empty());
    assert_eq!(plugin.commands().len(), 2);
}

#[test]
fn factory_builds_fresh_instances_with_empty_tables() {
    let a = RunCommandsFactory.create();
    let b = RunCommandsFactory.create();
    assert_eq!(a.meta().name, "run_commands");
    assert_eq!(b.meta().name, "run_commands");
    // Factory-created instances are trait objects; verify freshness by
    // confirming that a valid request produces no execution echo (the
    // command table is empty so no name can resolve).
    let mut fresh = RunCommandsFactory.create();
    let pkt = packet(TYPE_RUNCOMMAND_REQUEST, json(r#"{"name": "x"}"#));
    assert!(fresh.quick(&pkt).is_empty());
}
