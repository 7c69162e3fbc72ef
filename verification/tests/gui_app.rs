use handfast::gui::app::{
    clamp_line, Effect, HandfastApp, Message, LOG_CAP, NOTIF_CAP,
};
use handfast::gui::bridge::BridgeIn;
use handfast::gui::model::{ConnState, PluginRow, PluginToggles, TransferRow};
use handfast::ipc::ServerEvent as Ev;
use std::ops::{Deref, DerefMut};

/// The application with the commands that it sent.
struct Rig {
    app: HandfastApp,
    sent: Vec<BridgeIn>,
}

impl Rig {
    fn new() -> Self {
        Rig { app: HandfastApp::new(PluginToggles::new()), sent: Vec::new() }
    }
}

impl Deref for Rig {
    type Target = HandfastApp;

    fn deref(&self) -> &HandfastApp {
        &self.app
    }
}

impl DerefMut for Rig {
    fn deref_mut(&mut self) -> &mut HandfastApp {
        &mut self.app
    }
}

/// Drive a batch of synthetic messages through the reducer.
fn reduce(rig: &mut Rig, messages: Vec<Message>) {
    for message in messages {
        for effect in rig.app.update(message) {
            match effect {
                Effect::Send(command) => rig.sent.push(command),
                Effect::Undelivered(command) => rig.app.not_delivered(&command),
                Effect::SaveToggles => {}
            }
        }
    }
}

/// Drain everything sent so far.
fn drained(rig: &mut Rig) -> Vec<BridgeIn> {
    std::mem::take(&mut rig.sent)
}

/// App with a driver that takes commands.
fn app_with_bridge() -> Rig {
    let mut rig = Rig::new();
    reduce(&mut rig, vec![Message::BridgeReady]);
    rig
}

/// Completed fraction as a percentage.
fn percent(row: &TransferRow) -> f32 {
    let (done, total) = row.ratio();
    done as f32 / total as f32 * 100.0
}

#[test]
fn device_found_adds_and_then_merges_cards() {
    let mut app = Rig::new();
    reduce(
        &mut app,
        vec![Message::Event(Ev::DeviceFound {
            id: "d1".into(),
            name: "Pixel".into(),
        })],
    );
    assert_eq!(app.devices.len(), 1);
    assert_eq!(app.devices[0].name, "Pixel");
    assert_eq!(app.devices[0].kind, "unknown");

    reduce(
        &mut app,
        vec![Message::Event(Ev::DeviceFound {
            id: "d1".into(),
            name: "Pixel 2".into(),
        })],
    );
    assert_eq!(app.devices.len(), 1);
    assert_eq!(app.devices[0].name, "Pixel 2");
}

#[test]
fn transfer_progress_updates_matching_id_only() {
    let mut app = Rig::new();
    reduce(
        &mut app,
        vec![
            Message::Event(Ev::TransferProgress {
                id: "t1".into(),
                bytes_done: 10,
                bytes_total: 100,
            }),
            Message::Event(Ev::TransferProgress {
                id: "t2".into(),
                bytes_done: 5,
                bytes_total: 50,
            }),
            Message::Event(Ev::TransferProgress {
                id: "t2".into(),
                bytes_done: 25,
                bytes_total: 50,
            }),
        ],
    );
    assert_eq!(app.transfers.len(), 2);
    let t1 = app
        .transfers
        .iter()
        .find(|transfer| transfer.id == "t1")
        .map(|transfer| transfer.done);
    assert_eq!(t1, Some(10));
    let t2 = app
        .transfers
        .iter()
        .find(|transfer| transfer.id == "t2")
        .map(|transfer| transfer.done);
    assert_eq!(t2, Some(25));
}

#[test]
fn transfer_added_seeds_row_and_finish_snaps_it() {
    let mut app = Rig::new();
    reduce(
        &mut app,
        vec![Message::Event(Ev::TransferAdded {
            id: "t9".into(),
            device_id: "d1".into(),
            direction: "incoming".into(),
            file_name: "report.pdf".into(),
            total: 500,
        })],
    );
    assert_eq!(app.transfers.len(), 1);
    assert_eq!(app.transfers[0].name, "report.pdf");
    assert_eq!(app.transfers[0].done, 0);

    reduce(
        &mut app,
        vec![Message::Event(Ev::TransferProgress {
            id: "t9".into(),
            bytes_done: 200,
            bytes_total: 500,
        })],
    );
    // A duplicate Added frame must not duplicate rows.
    reduce(
        &mut app,
        vec![Message::Event(Ev::TransferAdded {
            id: "t9".into(),
            device_id: "d1".into(),
            direction: "incoming".into(),
            file_name: "report.pdf".into(),
            total: 500,
        })],
    );
    assert_eq!(app.transfers.len(), 1);

    reduce(
        &mut app,
        vec![Message::Event(Ev::TransferFinished { id: "t9".into() })],
    );
    assert_eq!(app.transfers[0].done, 500);
    assert_eq!(percent(&app.transfers[0]), 100.0);
}

#[test]
fn transfer_failed_drops_the_row() {
    let mut app = Rig::new();
    reduce(
        &mut app,
        vec![
            Message::Event(Ev::TransferProgress {
                id: "t1".into(),
                bytes_done: 10,
                bytes_total: 100,
            }),
            Message::Event(Ev::TransferFailed {
                id: "t1".into(),
                reason: "peer reset".into(),
            }),
        ],
    );
    assert!(app.transfers.is_empty());
}

#[test]
fn settings_button_flips_panel_visibility() {
    let mut app = Rig::new();
    assert!(!app.settings_open);
    reduce(&mut app, vec![Message::SettingsPressed]);
    assert!(app.settings_open);
    reduce(&mut app, vec![Message::SettingsPressed]);
    assert!(!app.settings_open);
}

#[test]
fn saved_plugin_toggles_persist_and_dispatch() {
    let mut app = app_with_bridge();
    reduce(
        &mut app,
        vec![Message::Event(Ev::DeviceFound {
            id: "a".into(),
            name: "A".into(),
        })],
    );

    reduce(
        &mut app,
        vec![Message::ToggleSavedPlugin("a:ping".into(), true)],
    );
    assert_eq!(app.plugin_toggles.get("a:ping"), Some(&true));
    assert!(matches!(
        drained(&mut app).first(),
        Some(BridgeIn::SetPlugin { device_id, plugin, enabled: true })
            if device_id == "a" && plugin == "ping"
    ));

    // Malformed keys neither persist nor dispatch.
    reduce(
        &mut app,
        vec![Message::ToggleSavedPlugin("broken".into(), true)],
    );
    assert!(!app.plugin_toggles.contains_key("broken"));
    assert!(drained(&mut app).is_empty());
    assert!(matches!(&app.banner, Some(text) if text.contains("malformed")));
}

#[test]
fn plugins_loaded_overlays_persisted_state() {
    let mut app = Rig::new();
    app.plugin_toggles.insert("a:sms".into(), false);
    reduce(
        &mut app,
        vec![Message::Event(Ev::DeviceFound {
            id: "a".into(),
            name: "A".into(),
        })],
    );
    reduce(&mut app, vec![Message::DeviceSelected(0)]);
    reduce(
        &mut app,
        vec![Message::PluginsLoaded(vec![PluginRow {
            name: "sms".into(),
            title: "SMS".into(),
            enabled: true,
        }])],
    );
    // The daemon said enabled=true but the user persisted enabled=false.
    assert!(!app.plugins[0].enabled);
}

#[test]
fn toggling_a_plugin_records_its_persistence_key() {
    let mut app = app_with_bridge();
    reduce(
        &mut app,
        vec![
            Message::Event(Ev::DeviceFound {
                id: "a".into(),
                name: "A".into(),
            }),
            Message::DeviceSelected(0),
        ],
    );
    let _ = drained(&mut app);

    reduce(&mut app, vec![Message::TogglePlugin("ping".into(), true)]);
    assert_eq!(app.plugin_toggles.get("a:ping"), Some(&true));
    assert!(matches!(
        drained(&mut app).first(),
        Some(BridgeIn::SetPlugin { plugin, enabled: true, .. }) if plugin == "ping"
    ));
}

#[test]
fn log_buffer_caps_at_limit() {
    let mut app = Rig::new();
    let mut messages = Vec::new();
    for i in 0..(LOG_CAP + 10) {
        messages.push(Message::Event(Ev::LogRecord {
            level: "info".into(),
            msg: format!("line-{i}"),
        }));
    }
    reduce(&mut app, messages);
    assert_eq!(app.logs.len(), LOG_CAP);
    // One boot line plus LOG_CAP+10 records: the oldest eleven fell off.
    assert!(app
        .logs
        .last()
        .is_some_and(|line| line.contains("line-309")));
    assert!(app
        .logs
        .first()
        .is_some_and(|line| line.contains("line-10")));
}

#[test]
fn notifications_cap_and_dismiss() {
    let mut app = Rig::new();
    let mut messages = Vec::new();
    for i in 0..(NOTIF_CAP + 5) {
        messages.push(Message::Event(Ev::NotificationReceived {
            id: format!("n{i}"),
            app: "app".into(),
            title: format!("t{i}"),
            body: String::new(),
        }));
    }
    reduce(&mut app, messages);
    assert_eq!(app.notifications.len(), NOTIF_CAP);
    assert_eq!(app.notifications[0].id, format!("n{}", NOTIF_CAP + 4));

    reduce(
        &mut app,
        vec![Message::DismissPressed(format!("n{}", NOTIF_CAP + 4))],
    );
    assert!(app
        .notifications
        .iter()
        .all(|row| row.id != format!("n{}", NOTIF_CAP + 4)));
}

#[test]
fn selecting_a_device_fetches_its_plugins() {
    let mut app = app_with_bridge();
    app.plugins.push(PluginRow {
        name: "stale".into(),
        title: "stale".into(),
        enabled: false,
    });
    reduce(
        &mut app,
        vec![
            Message::Event(Ev::DeviceFound {
                id: "a".into(),
                name: "A".into(),
            }),
            Message::DeviceSelected(0),
        ],
    );
    assert!(matches!(drained(&mut app).first(),
            Some(BridgeIn::ListPlugins(id)) if id == "a"));
    assert_eq!(app.selected, Some(0));
    // Stale rows were dropped pending the authoritative refresh.
    assert!(app.plugins.is_empty());
}

#[test]
fn toggling_a_plugin_dispatches_and_flips_optimistically() {
    let mut app = app_with_bridge();
    reduce(
        &mut app,
        vec![
            Message::Event(Ev::DeviceFound {
                id: "a".into(),
                name: "A".into(),
            }),
            Message::DeviceSelected(0),
        ],
    );
    let _ = drained(&mut app);

    reduce(
        &mut app,
        vec![
            Message::PluginsLoaded(vec![PluginRow {
                name: "ping".into(),
                title: "Ping".into(),
                enabled: false,
            }]),
            Message::TogglePlugin("ping".into(), true),
        ],
    );

    assert!(matches!(
        drained(&mut app).first(),
        Some(BridgeIn::SetPlugin { plugin, enabled: true, .. }) if plugin == "ping"
    ));
    assert!(app.plugins[0].enabled);
}

#[test]
fn failed_pair_reverts_state_and_banners() {
    let mut app = app_with_bridge();
    reduce(
        &mut app,
        vec![
            Message::Event(Ev::DeviceFound {
                id: "a".into(),
                name: "A".into(),
            }),
            Message::PairPressed("a".into()),
        ],
    );
    assert!(matches!(drained(&mut app).first(),
            Some(BridgeIn::Pair(id)) if id == "a"));
    assert_eq!(app.devices[0].state, "pairing");

    reduce(&mut app, vec![Message::Paired(Err("refused".into()))]);
    assert_eq!(app.devices[0].state, "found");
    assert!(!app.devices[0].paired);
    assert!(matches!(&app.banner, Some(text) if text.contains("refused")));
}

#[test]
fn losing_another_device_keeps_selection_stable() {
    let mut app = Rig::new();
    reduce(
        &mut app,
        vec![
            Message::Event(Ev::DeviceFound {
                id: "a".into(),
                name: "A".into(),
            }),
            Message::Event(Ev::DeviceFound {
                id: "b".into(),
                name: "B".into(),
            }),
            Message::DeviceSelected(1),
        ],
    );
    reduce(
        &mut app,
        vec![Message::Event(Ev::DeviceLost { id: "a".into() })],
    );
    let selected_name = app
        .selected
        .and_then(|index| app.devices.get(index))
        .map(|card| card.name.clone());
    assert_eq!(selected_name, Some("B".into()));

    // Losing the selected device clears the selection entirely.
    reduce(
        &mut app,
        vec![Message::Event(Ev::DeviceLost { id: "b".into() })],
    );
    assert!(app.selected.is_none());
    assert!(app.selected_id.is_none());
}

#[test]
fn successful_pair_marks_card_paired() {
    let mut app = app_with_bridge();
    reduce(
        &mut app,
        vec![
            Message::Event(Ev::DeviceFound {
                id: "a".into(),
                name: "A".into(),
            }),
            Message::PairPressed("a".into()),
        ],
    );
    reduce(&mut app, vec![Message::Paired(Ok(()))]);
    assert!(app.devices[0].paired);
    assert_eq!(app.devices[0].state, "paired");

    reduce(&mut app, vec![Message::UnpairPressed("a".into())]);
    reduce(&mut app, vec![Message::Unpaired(Ok(()))]);
    assert!(!app.devices[0].paired);
    assert_eq!(app.devices[0].state, "found");
}

#[test]
fn long_clipboard_lines_are_trimmed_for_the_log() {
    assert_eq!(clamp_line("short", 10), "short");
    let long = clamp_line("abcdefghij", 5);
    assert_eq!(long.chars().count(), 5);
    assert!(long.ends_with("..."));
}

#[test]
fn offline_commands_show_up_as_errors() {
    let mut app = Rig::new();
    reduce(&mut app, vec![Message::RefreshPressed]);
    assert!(drained(&mut app).is_empty());
    assert_eq!(app.banner.as_deref(), Some("not connected"));
    assert_eq!(app.logs.last().map(String::as_str), Some("[error] not connected"));

    reduce(
        &mut app,
        vec![Message::ClipboardChanged(" hi ".into()), Message::SendPressed],
    );
    assert_eq!(app.clipboard_status.as_deref(), Some("not connected"));

    // A dismissal is dropped without a word.
    reduce(
        &mut app,
        vec![Message::BannerClosed, Message::DismissPressed("n1".into())],
    );
    assert!(app.banner.is_none());
}

#[test]
fn clipboard_drafts_are_trimmed_and_acknowledged() {
    let mut app = app_with_bridge();
    reduce(&mut app, vec![Message::SendPressed]);
    assert_eq!(app.clipboard_status.as_deref(), Some("nothing to send"));
    reduce(
        &mut app,
        vec![Message::ClipboardChanged("  hello \n".into()), Message::SendPressed],
    );
    assert_eq!(drained(&mut app), vec![BridgeIn::ClipboardSet("hello".into())]);
    assert_eq!(app.clipboard_status.as_deref(), Some("sending"));
    reduce(&mut app, vec![Message::ClipboardSet(Ok(()))]);
    assert_eq!(app.clipboard_status.as_deref(), Some("copied to daemon"));
    reduce(&mut app, vec![Message::ClipboardSet(Err("denied".into()))]);
    assert_eq!(app.clipboard_status.as_deref(), Some("error: denied"));
    assert_eq!(
        app.logs.last().map(String::as_str),
        Some("[error] clipboard send failed: denied")
    );
}

#[test]
fn queueing_a_file_needs_a_device_and_a_path() {
    let mut app = app_with_bridge();
    reduce(&mut app, vec![Message::QueueFilePressed]);
    assert_eq!(app.banner.as_deref(), Some("select a device first"));
    reduce(
        &mut app,
        vec![
            Message::Event(Ev::DeviceFound { id: "a".into(), name: "A".into() }),
            Message::DeviceSelected(0),
            Message::PathChanged("   ".into()),
            Message::QueueFilePressed,
        ],
    );
    assert_eq!(app.banner.as_deref(), Some("enter an absolute file path first"));
    let _ = drained(&mut app);
    reduce(
        &mut app,
        vec![Message::PathChanged(" /tmp/a.bin ".into()), Message::QueueFilePressed],
    );
    assert_eq!(
        drained(&mut app),
        vec![BridgeIn::SendFile { device_id: "a".into(), path: "/tmp/a.bin".into() }]
    );
}

#[test]
fn greeting_from_another_protocol_version_warns() {
    let mut app = Rig::new();
    reduce(
        &mut app,
        vec![Message::Event(Ev::Hello { version: 9, app: "handfast".into(), pid: 42 })],
    );
    assert_eq!(app.daemon_version.as_deref(), Some("9"));
    assert_eq!(app.logs[1], "hello: handfast pid 42 (ipc v9)");
    assert_eq!(
        app.logs[2],
        "[warn] protocol mismatch: gui speaks v1, daemon offers v9"
    );
}

#[test]
fn connecting_clears_the_banner() {
    let mut app = Rig::new();
    reduce(&mut app, vec![Message::ConnectionLost("gone".into())]);
    assert_eq!(app.banner.as_deref(), Some("gone"));
    reduce(&mut app, vec![Message::IpcStatus(ConnState::Connecting)]);
    assert_eq!(app.banner.as_deref(), Some("gone"));
    reduce(&mut app, vec![Message::IpcStatus(ConnState::Connected)]);
    assert!(app.banner.is_none());
}

#[test]
fn unsaved_toggles_leave_a_warning() {
    let mut app = app_with_bridge();
    let effects = app.update(Message::ToggleSavedPlugin("dev:x:ping".into(), false));
    assert_eq!(effects.len(), 2);
    assert_eq!(effects[0], Effect::SaveToggles);
    assert_eq!(
        effects[1],
        Effect::Send(BridgeIn::SetPlugin {
            device_id: "dev:x".into(),
            plugin: "ping".into(),
            enabled: false,
        })
    );
    app.toggles_not_saved("disk full");
    assert_eq!(
        app.logs.last().map(String::as_str),
        Some("[warn] persisting plugin toggles failed: disk full")
    );
}

#[test]
fn failed_unpair_keeps_the_device_paired() {
    let mut app = app_with_bridge();
    reduce(
        &mut app,
        vec![
            Message::Event(Ev::DeviceFound { id: "a".into(), name: "A".into() }),
            Message::Event(Ev::DeviceStateChanged { id: "a".into(), state: "paired".into() }),
            Message::UnpairPressed("a".into()),
        ],
    );
    assert_eq!(app.devices[0].state, "unpairing");
    reduce(&mut app, vec![Message::Unpaired(Err("busy".into()))]);
    assert_eq!(app.devices[0].state, "paired");
    assert!(app.devices[0].paired);
    assert_eq!(app.banner.as_deref(), Some("unpairing failed: busy"));
}

#[test]
fn unsaved_toggles_are_reported_before_the_missing_connection() {
    let mut app = Rig::new();
    let key: String = "d:ping".into();
    for effect in app.update(Message::ToggleSavedPlugin(key, true)) {
        match effect {
            Effect::SaveToggles => app.toggles_not_saved("disk full"),
            Effect::Undelivered(command) => app.not_delivered(&command),
            Effect::Send(command) => panic!("sent {command:?}"),
        }
    }
    let last = app.logs.len() - 2;
    assert_eq!(app.logs[last], "[warn] persisting plugin toggles failed: disk full");
    assert_eq!(app.logs[last + 1], "[error] not connected");
    assert_eq!(app.banner.as_deref(), Some("not connected"));
}
