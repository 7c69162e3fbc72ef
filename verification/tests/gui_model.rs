use handfast::gui::bridge::{
    answer, follow_up, load_snapshot, notices, pause_after, requests, unwrap_response, BridgeIn,
    Milestone, RECONNECT_DELAY,
};
use handfast::gui::app::{HandfastApp, Message};
use handfast::gui::model::{
    apply_persisted_toggles, load_plugin_toggles, parse_devices, parse_notifications,
    parse_plugins, save_plugin_toggles, split_toggle_key, toggle_key, ConnState, DeviceCard,
    NotifRow, PluginRow, PluginToggles, Tab, TransferRow,
};
use handfast::gui::view::{
    banner_line, can_refresh, can_send, card_action, conn_label, daemon_label, device_row,
    devices_hint, notification_line, plugins_hint, selected_card, selected_line, transfer_line,
    CardAction,
};
use handfast::ipc::{Error, Request, Response};
use handfast::json::Json;

/// Parse a JSON document.
fn json(text: &str) -> Json {
    Json::parse(text.as_bytes()).expect("valid JSON")
}

/// Completed fraction as a percentage.
fn percent(row: &TransferRow) -> f32 {
    let (done, total) = row.ratio();
    done as f32 / total as f32 * 100.0
}

#[test]
fn parse_devices_accepts_bare_array() {
    let value = json(r#"[ {"id": "a", "name": "Pixel", "type": "phone", "paired": true}, {"id": "b", "name": "Laptop"} ]"#);
    let cards = parse_devices(&value);
    assert_eq!(cards.len(), 2);
    assert_eq!(cards[0].kind, "phone");
    assert!(cards[0].paired);
    assert_eq!(cards[1].kind, "unknown");
    assert_eq!(cards[1].state, "found");
    assert!(!cards[1].paired);
}

#[test]
fn parse_devices_accepts_wrapped_object_and_falls_back_to_id() {
    let value = json(r#"{"devices": [{"device_id": "c"}]}"#);
    let cards = parse_devices(&value);
    assert_eq!(cards.len(), 1);
    assert_eq!(cards[0].id, "c");
    // Missing name falls back to the id; missing paired falls back to the
    // default "found" state rather than implying a pairing.
    assert_eq!(cards[0].name, "c");
    assert!(!cards[0].paired);
}

#[test]
fn parse_devices_skips_non_objects_and_rejects_non_arrays() {
    assert!(parse_devices(&json(r#""nope""#)).is_empty());
    assert!(parse_devices(&json(r#"42"#)).is_empty());
    assert!(parse_devices(&json(r#"[1, "x", null]"#)).is_empty());
}

#[test]
fn parse_devices_treats_state_as_paired_hint() {
    let value = json(r#"[{"id": "d", "state": "connected"}]"#);
    let cards = parse_devices(&value);
    assert_eq!(cards[0].state, "connected");
    assert!(!cards[0].paired);
    let value = json(r#"[{"id": "d", "status": "paired"}]"#);
    let cards = parse_devices(&value);
    assert!(cards[0].paired);
}

#[test]
fn parse_plugins_defaults_title_and_enabled() {
    let value = json(r#"{"plugins": [ {"name": "ping"}, {"plugin": "sms", "label": "SMS", "active": true} ]}"#);
    let plugins = parse_plugins(&value);
    assert_eq!(plugins.len(), 2);
    assert_eq!(plugins[0].title, "ping");
    assert!(!plugins[0].enabled);
    assert_eq!(plugins[1].title, "SMS");
    assert!(plugins[1].enabled);
}

#[test]
fn parse_notifications_requires_only_an_id() {
    let value = json(r#"[ {"notification_id": "n1", "app": "kmail", "title": "Hi", "body": "Yo"}, {"id": "n2"} ]"#);
    let rows = parse_notifications(&value);
    assert_eq!(rows.len(), 2);
    assert_eq!(rows[0].app, "kmail");
    assert_eq!(rows[1].title, "");
}

#[test]
fn transfer_percent_clamps() {
    let row = TransferRow {
        id: "t".into(),
        name: "t".into(),
        done: 50,
        total: 100,
    };
    assert_eq!(percent(&row), 50.0);
    let zero = TransferRow {
        id: "t".into(),
        name: "t".into(),
        done: 10,
        total: 0,
    };
    assert_eq!(percent(&zero), 0.0);
    let over = TransferRow {
        id: "t".into(),
        name: "t".into(),
        done: 150,
        total: 100,
    };
    assert_eq!(percent(&over), 100.0);
}

#[test]
fn upsert_replaces_matching_ids() {
    let mut cards = vec![DeviceCard::from_found("a", "A")];
    DeviceCard::upsert(&mut cards, DeviceCard::from_found("b", "B"));
    assert_eq!(cards.len(), 2);
    DeviceCard::upsert(&mut cards, DeviceCard::from_found("a", "A2"));
    assert_eq!(cards.len(), 2);
    assert_eq!(cards[0].name, "A2");

    let mut rows = Vec::new();
    TransferRow::upsert(
        &mut rows,
        TransferRow {
            id: "t".into(),
            name: "t".into(),
            done: 1,
            total: 2,
        },
    );
    TransferRow::upsert(
        &mut rows,
        TransferRow {
            id: "t".into(),
            name: "t".into(),
            done: 3,
            total: 4,
        },
    );
    assert_eq!(rows.len(), 1);
    assert_eq!(rows[0].done, 3);
}

#[test]
fn apply_state_tracks_pairing_exactly() {
    let mut card = DeviceCard::from_found("a", "A");
    card.apply_state("paired");
    assert!(card.paired);
    card.apply_state("reachable");
    assert!(!card.paired);
    assert_eq!(card.state, "reachable");
}

#[test]
fn ok_responses_yield_their_payload() {
    let payload = unwrap_response(Ok(Response::ok_json(json(r#"{"a": 1}"#))));
    assert_eq!(payload, Ok(json(r#"{"a": 1}"#)));
}

#[test]
fn daemon_errors_carry_code_and_message() {
    let result = unwrap_response(Ok(Response::err(7, "denied")));
    assert!(
        matches!(result, Err(ref message)
            if message.contains("7") && message.contains("denied"))
    );
}

#[test]
fn transport_errors_are_stringified() {
    let result = unwrap_response(Err(Error::Closed));
    assert!(matches!(result, Err(ref message) if !message.is_empty()));
}

#[test]
fn toggle_keys_read_back() {
    assert_eq!(toggle_key("dev", "ping"), "dev:ping");
    assert_eq!(
        split_toggle_key("dev:ping"),
        Some(("dev".to_owned(), "ping".to_owned()))
    );
    assert_eq!(
        split_toggle_key("a:b:ping"),
        Some(("a:b".to_owned(), "ping".to_owned()))
    );
    assert_eq!(split_toggle_key("broken"), None);
    assert_eq!(split_toggle_key(":ping"), None);
    assert_eq!(split_toggle_key("dev:"), None);
    assert_eq!(split_toggle_key(""), None);
}

#[test]
fn stored_toggles_overlay_only_their_rows() {
    let mut toggles = PluginToggles::new();
    toggles.insert(toggle_key("a", "ping"), false);
    toggles.insert(toggle_key("b", "sms"), false);
    let row = |name: &str| PluginRow { name: name.into(), title: name.into(), enabled: true };
    let mut rows = vec![row("ping"), row("sms")];
    apply_persisted_toggles(&mut rows, "a", &toggles);
    assert!(!rows[0].enabled);
    assert!(rows[1].enabled);
}

#[test]
fn tabs_come_in_display_order() {
    let labels: Vec<&str> = Tab::all().iter().map(|tab| tab.label()).collect();
    assert_eq!(labels, ["Devices", "Transfers", "Notifications", "Logs"]);
    assert_eq!(ConnState::Disconnected.label(), "disconnected");
    assert_eq!(ConnState::Connecting.label(), "connecting");
    assert_eq!(ConnState::Connected.label(), "connected");
}

#[test]
fn commands_become_requests() {
    assert_eq!(requests(&BridgeIn::RefreshDevices), vec![Request::DeviceList]);
    assert_eq!(
        requests(&BridgeIn::SetPlugin {
            device_id: "a".into(),
            plugin: "ping".into(),
            enabled: true,
        }),
        vec![
            Request::PluginSetEnabled {
                device_id: "a".into(),
                plugin: "ping".into(),
                enabled: true,
            },
            Request::PluginList { device_id: "a".into() },
        ]
    );
    assert_eq!(
        requests(&BridgeIn::DismissNotification("n".into())),
        vec![Request::NotificationDismiss { notification_id: "n".into() }]
    );
}

#[test]
fn replies_become_messages() {
    let loaded = answer(&BridgeIn::RefreshDevices, Ok(json(r#"[{"id": "a"}]"#)));
    assert!(matches!(loaded, Message::DevicesLoaded(ref cards) if cards[0].id == "a"));
    let failed = answer(&BridgeIn::RefreshDevices, Err("x".into()));
    assert!(matches!(failed, Message::LoadFailed(ref text) if text == "refresh failed: x"));
    let failed = answer(&BridgeIn::ListPlugins("a".into()), Err("x".into()));
    assert!(matches!(failed, Message::LoadFailed(ref text) if text == "plugin list failed: x"));
    let paired = answer(&BridgeIn::Pair("a".into()), Ok(json("null")));
    assert!(matches!(paired, Message::Paired(Ok(()))));
    let unpaired = answer(&BridgeIn::Unpair("a".into()), Err("no".into()));
    assert!(matches!(unpaired, Message::Unpaired(Err(ref text)) if text == "no"));
    assert!(follow_up(Err("x".into())).is_none());
    assert!(matches!(
        follow_up(Ok(json(r#"[{"name": "ping"}]"#))),
        Some(Message::PluginsLoaded(ref rows)) if rows[0].name == "ping"
    ));
    let (devices, notifications) = load_snapshot(Err("a".into()), Err("b".into()));
    assert!(matches!(devices, Message::LoadFailed(ref t) if t == "device list failed: a"));
    assert!(
        matches!(notifications, Message::LoadFailed(ref t) if t == "notification list failed: b")
    );
}

#[test]
fn connect_loop_reports_and_pauses() {
    let unreachable = Milestone::Unreachable {
        path: "/run/x.sock".into(),
        error: "refused".into(),
    };
    let said = notices(&unreachable);
    assert_eq!(said.len(), 2);
    assert!(matches!(said[0], Message::IpcStatus(ConnState::Disconnected)));
    assert!(matches!(
        said[1],
        Message::ConnectionLost(ref text)
            if text == "daemon unreachable at /run/x.sock: refused; retrying every 5s"
    ));
    assert_eq!(pause_after(&unreachable), Some(RECONNECT_DELAY));
    assert_eq!(pause_after(&Milestone::Attempt), None);
    assert_eq!(pause_after(&Milestone::Established), None);
    assert_eq!(pause_after(&Milestone::Ended), Some(5));
    assert!(matches!(
        notices(&Milestone::NoEvents)[0],
        Message::ConnectionLost(ref text) if text == "daemon provided no event stream"
    ));
}

#[test]
fn labels_follow_the_state() {
    let mut app = HandfastApp::default();
    assert_eq!(daemon_label(&app), "daemon: unknown");
    assert_eq!(conn_label(app.conn), "ipc: disconnected");
    assert_eq!(devices_hint(app.conn), "waiting for the daemon...");
    assert_eq!(plugins_hint(app.conn), "connect to list plugins");
    assert!(!can_refresh(&app) && !can_send(&app));
    app.conn = ConnState::Connected;
    app.clipboard_draft = " x ".into();
    app.daemon_version = Some("1".into());
    assert_eq!(daemon_label(&app), "daemon ipc v1");
    assert_eq!(devices_hint(app.conn), "discovering devices...");
    assert_eq!(plugins_hint(app.conn), "no plugins reported");
    assert!(can_refresh(&app) && can_send(&app));
    app.clipboard_draft = " \t".into();
    assert!(!can_send(&app));
    assert!(selected_card(&app).is_none());
    app.devices.push(DeviceCard::from_found("a", "A"));
    app.selected = Some(0);
    let card = selected_card(&app).expect("selected");
    assert_eq!(selected_line(card), "selected: A (a)");
    assert_eq!(
        device_row(app.selected, 0, card),
        ("> A".to_owned(), "unknown/found".to_owned())
    );
    assert_eq!(device_row(app.selected, 1, card).0, "A");
    assert_eq!(banner_line("x"), "! x");
}

#[test]
fn cards_offer_one_action() {
    let mut card = DeviceCard::from_found("a", "A");
    assert_eq!(card_action(&card), CardAction::Pair);
    card.apply_state("paired");
    assert_eq!(card_action(&card), CardAction::Unpair);
    card.state = "unpairing".into();
    assert_eq!(card_action(&card), CardAction::InFlight("unpairing".into()));
    let row = TransferRow { id: "t".into(), name: "f".into(), done: 3, total: 10 };
    assert_eq!(transfer_line(&row), "3/10 B");
    let row = NotifRow {
        id: "n".into(),
        app: "kmail".into(),
        title: "Hi".into(),
        body: String::new(),
    };
    assert_eq!(notification_line(&row), "kmail: Hi");
}

#[test]
fn saved_toggles_are_loaded_again() {
    let mut toggles = PluginToggles::new();
    toggles.insert("a:ping".into(), true);
    toggles.insert("b:c:sms".into(), false);
    let bytes = save_plugin_toggles(&toggles);
    assert_eq!(bytes, br#"{"a:ping":true,"b:c:sms":false}"#.to_vec());
    let loaded = load_plugin_toggles(Some(bytes));
    assert_eq!(loaded.len(), 2);
    assert_eq!(loaded.get("a:ping"), Some(&true));
    assert_eq!(loaded.get("b:c:sms"), Some(&false));
}

#[test]
fn unreadable_toggles_count_as_none() {
    assert!(load_plugin_toggles(None).is_empty());
    assert!(load_plugin_toggles(Some(b"[true]".to_vec())).is_empty());
    assert!(load_plugin_toggles(Some(b"{".to_vec())).is_empty());
    let mixed = load_plugin_toggles(Some(br#"{"a":1,"b":true,"c":"x"}"#.to_vec()));
    assert_eq!((mixed.len(), mixed.get("b")), (1, Some(&true)));
}
