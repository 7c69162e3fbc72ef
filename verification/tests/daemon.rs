use handfast::base::bus::Event;
use handfast::base::paths::Paths;
use handfast::base::store::DeviceRow;
use handfast::base::Error;
use handfast::daemon::backends::Materialized;
use handfast::daemon::device::{send_failure, Action, DeviceRequest, Manager, SourceStat};
use handfast::daemon::discovery::{
    announcement, parse_datagram, Endpoint, IpAddress, PeerAnnouncement,
};
use handfast::daemon::handshake::{
    accept_exchange, answers_announcement, cross_check, exchange, introduction, read_line,
    PlaintextReader,
};
use handfast::daemon::notices::Notices;
use handfast::daemon::power::{
    battery_message, notification_event, summarize_levels, sysfs_level, upower_level,
    BatteryLevel, BatteryWatch, SignalBody,
};
use handfast::daemon::requests::{
    abstract_name, build_self_identity, cancel_response, clipboard_get_response,
    clipboard_set_response, daemon_info, dismiss_response, handle_request, list_response,
    message_code, message_response, pair_response, plugin_list, plugins_response, send_response,
    setting_response, state_db_path, state_dir, unpair_response,
    volume_get_response, volume_set_response, Route, Session,
};
use handfast::daemon::sftp::{
    candidates, home_dir, locate_server_binary, path_places, Launch, SftpManager,
};
use handfast::daemon::tls::fingerprint_of_first;
use handfast::daemon::toggles::{plugin_keys, recall};
use handfast::daemon::volume::{read_volume, volume_argument, LocalVolume};
use handfast::gui::model::parse_plugins;
use handfast::ipc::{Request, Response};
use handfast::json::{Json, Record};
use handfast::plugins::battery::asks_for_battery;
use handfast::plugins::sms::TYPE_SMS_REQUEST;
use handfast::plugins::registry;
use handfast::protocol::{
    Identity, Packet, PacketIds, MAX_PACKET_LEN, PROTO_VERSION,
    TYPE_BATTERY_REQUEST, TYPE_IDENTITY, TYPE_NOTIFICATION, TYPE_PAIR, TYPE_PING,
    TYPE_RUNCOMMAND, TYPE_RUNCOMMAND_REQUEST, TYPE_SHARE,
};

/// Parse a JSON document.
fn json(text: &str) -> Json {
    Json::parse(text.as_bytes()).expect("valid JSON")
}

fn identity(id: &str, name: &str) -> Identity {
    Identity {
        device_id: id.into(),
        name: name.into(),
        device_type: "phone".into(),
        protocol_version: PROTO_VERSION,
        incoming: Vec::new(),
        outgoing: Vec::new(),
        tcp_source_port: 1716,
    }
}

fn manager() -> Manager {
    Manager::new("self".into(), registry())
}

fn announce(manager: &mut Manager, id: &str, name: &str) -> Vec<Action> {
    manager.on_announce(&PeerAnnouncement {
        ip: IpAddress::V4(0x0a00_0001),
        identity: identity(id, name),
    })
}

/// A manager with a connected device `a`.
fn connected() -> Manager {
    let mut manager = manager();
    announce(&mut manager, "a", "Phone");
    let (kept, _) = manager.on_connected("a", &[1, 2], 11);
    assert!(kept);
    manager
}

fn pair_packet(wanted: bool) -> Packet {
    let body = Record::new().with("pair", Json::Bool(wanted)).done();
    Packet::new(&mut PacketIds::new(), TYPE_PAIR, body)
}

#[test]
fn announcements_are_published_once_and_dialled() {
    let mut manager = manager();
    let actions = announce(&mut manager, "a", "Phone");
    assert_eq!(actions.len(), 2);
    assert!(matches!(
        &actions[0],
        Action::Publish(Event::DeviceFound { id, name }) if id == "a" && name == "Phone"
    ));
    let wanted = Endpoint { ip: IpAddress::V4(0x0a00_0001), port: 1716 };
    assert!(matches!(
        &actions[1],
        Action::Dial { device_id, endpoint } if device_id == "a" && *endpoint == wanted
    ));
    let actions = announce(&mut manager, "a", "Phone");
    assert_eq!(actions.len(), 1);
    assert!(matches!(&actions[0], Action::Dial { .. }));
    let (kept, _) = manager.on_connected("a", &[1], 4);
    assert!(kept);
    assert!(announce(&mut manager, "a", "Phone").is_empty());
}

#[test]
fn pairing_pins_the_certificate() {
    let mut manager = connected();
    let actions = manager.begin_pairing("a", 7);
    assert!(actions.iter().any(|action| matches!(
        action,
        Action::Send { link: 11, packet, .. } if packet.ty() == TYPE_PAIR
    )));
    let actions = manager.on_packet("a", &pair_packet(true), false, 5_000, None);
    assert!(matches!(&actions[0], Action::AnswerPairing { ticket: 7, answer: Ok(true) }));
    assert!(actions.iter().any(|action| matches!(
        action,
        Action::Store(row) if row.device_id == "a" && row.paired && row.cert_fingerprint == "0102"
    )));

    // Another certificate is refused from now on.
    manager.on_closed("a");
    let (kept, _) = manager.on_connected("a", &[9, 9], 12);
    assert!(!kept);
    let (kept, _) = manager.on_connected("a", &[1, 2], 13);
    assert!(kept);

    // Until the trust is revoked.
    manager.unpair("a", 6_000);
    manager.on_closed("a");
    let (kept, _) = manager.on_connected("a", &[9, 9], 14);
    assert!(kept);
}

#[test]
fn trust_survives_a_restart() {
    let mut manager = manager();
    manager.load_persisted(&vec![DeviceRow {
        device_id: "a".into(),
        name: "Phone".into(),
        device_type: "phone".into(),
        cert_fingerprint: "0102".into(),
        paired: true,
        last_seen: None,
    }]);
    assert!(!manager.on_connected("a", &[3], 1).0);
    assert!(manager.on_connected("a", &[1, 2], 2).0);
}

#[test]
fn pairing_needs_a_connected_unpaired_device() {
    let mut manager = manager();
    let refused = |actions: Vec<Action>| match actions.into_iter().next() {
        Some(Action::AnswerPairing { answer: Err(err), .. }) => err.message(),
        other => panic!("expected a refusal, got {other:?}"),
    };
    assert_eq!(refused(manager.begin_pairing("x", 1)), "unknown device 'x'");
    announce(&mut manager, "a", "Phone");
    assert_eq!(
        refused(manager.begin_pairing("a", 1)),
        "device not connected yet; wait for discovery"
    );
    let mut manager = connected();
    manager.begin_pairing("a", 1);
    let dropped = manager.on_closed("a");
    assert!(matches!(&dropped[0], Action::AnswerPairing { ticket: 1, answer: Err(_) }));
}

#[test]
fn unasked_pairing_follows_the_setting() {
    let mut manager = connected();
    let actions = manager.on_packet("a", &pair_packet(true), false, 1, None);
    let answer = |actions: &Vec<Action>| {
        actions.iter().find_map(|action| match action {
            Action::Send { packet, .. } => packet.body.bool_member("pair"),
            _ => None,
        })
    };
    assert_eq!(answer(&actions), Some(false));
    let actions = manager.on_packet("a", &pair_packet(true), true, 1, None);
    assert_eq!(answer(&actions), Some(true));
    assert!(actions.iter().any(|action| matches!(action, Action::Store(row) if row.paired)));
}

#[test]
fn pings_are_answered_over_the_connection() {
    let mut manager = connected();
    let ping = Packet::new(&mut PacketIds::new(), TYPE_PING, json("{}"));
    let actions = manager.on_packet("a", &ping, false, 1, None);
    assert!(actions.iter().any(|action| matches!(
        action,
        Action::Send { link: 11, packet, .. } if packet.ty() == TYPE_PING
    )));
    let hello = Packet::identity(&mut PacketIds::new(), &identity("a", "Phone"));
    assert_eq!(hello.ty(), TYPE_IDENTITY);
    assert!(manager.on_packet("a", &hello, false, 1, None).is_empty());
}

/// A source that the caller owns.
fn local(path: &str) -> Materialized {
    Materialized { local: path.into(), cleanup: None }
}

/// A source that a URI was read into.
fn temporary(path: &str) -> Materialized {
    Materialized { local: path.into(), cleanup: Some(path.into()) }
}

fn discards(action: &Action, wanted: &str) -> bool {
    matches!(action, Action::Discard { path } if path == wanted)
}

#[test]
fn temporary_sources_are_removed_however_a_send_ends() {
    let mut manager = connected();
    let file = |size| SourceStat::File { size, modified_ms: None };
    let (refused, actions) = manager.send_file("x", &temporary("/tmp/s"), &file(1));
    assert!(refused.is_err());
    assert!(actions.len() == 1 && discards(&actions[0], "/tmp/s"));

    let sending = manager.send_file("a", &temporary("/tmp/s"), &file(0)).0.unwrap();
    let header = manager.share_header(&sending, None);
    assert!(header.payload_size().is_none() && header.payload_transfer_port().is_none());
    let (id, actions) = manager.finish_send(&sending, Ok(()));
    let id = id.unwrap();
    assert_eq!(actions.len(), 3);
    assert!(matches!(&actions[1], Action::Publish(Event::TransferFinished { id: i }) if *i == id));
    assert!(discards(&actions[2], "/tmp/s"));
    assert_eq!(manager.transfer_snapshot()[0].str_member("state"), Some("finished"));
    assert_eq!(manager.transfer_snapshot()[0].u64_member("total"), Some(0));

    let sending = manager.send_file("a", &temporary("/tmp/s"), &file(9)).0.unwrap();
    let (refused, actions) = manager.finish_send(&sending, Err(Error::Other("full".into())));
    assert_eq!(refused.unwrap_err().message(), "full");
    assert!(actions.len() == 1 && discards(&actions[0], "/tmp/s"));

    for result in [Ok(()), Err("gone".to_string())] {
        let (id, actions) = manager.finish_send(&sending, Ok(()));
        assert_eq!(actions.len(), 1);
        let id = id.unwrap();
        let actions = manager.on_transfer_outcome(&id, result);
        assert!(discards(&actions[0], "/tmp/s"));
        let again = manager.on_transfer_outcome(&id, Ok(()));
        assert!(!again.iter().any(|action| discards(action, "/tmp/s")));
    }
}

/// The packet of the one action that sends one.
fn sent(actions: &[Action]) -> &Packet {
    match actions {
        [Action::Send { device_id, link: 11, packet }] if device_id == "a" => packet,
        other => panic!("expected one packet, got {other:?}"),
    }
}

#[test]
fn devices_are_asked_over_their_connection() {
    let mut manager = connected();
    manager.continue_after(41);
    let asks = vec![
        (DeviceRequest::RunCommand("lock".into()), TYPE_RUNCOMMAND_REQUEST, r#"{"name":"lock"}"#),
        (DeviceRequest::ShareText("hi".into()), TYPE_SHARE, r#"{"text":"hi"}"#),
        (DeviceRequest::ShareUrl("u://x".into()), TYPE_SHARE, r#"{"url":"u://x"}"#),
        (DeviceRequest::Battery, TYPE_BATTERY_REQUEST, r#"{"request":true}"#),
    ];
    for (n, (request, ty, body)) in asks.iter().enumerate() {
        let action = manager.ask_device("a", request).unwrap();
        let actions = [action];
        let packet = sent(&actions);
        assert_eq!((packet.ty(), packet.id), (*ty, 42 + n as i64));
        assert_eq!(packet.body.render(), json(body).render());
        let why = manager.ask_device("x", request).unwrap_err().message();
        assert_eq!(why, "device 'x' is unknown");
    }
    assert_eq!(manager.last_packet_id(), 45);

    let sms = DeviceRequest::Sms { number: "+1555".into(), text: "on my way".into() };
    let why = manager.ask_device("a", &sms).unwrap_err().message();
    assert_eq!(why, "device 'a' is not paired");
    manager.begin_pairing("a", 1);
    manager.on_packet("a", &pair_packet(true), false, 1, None);
    let actions = [manager.ask_device("a", &sms).unwrap()];
    let packet = sent(&actions);
    assert_eq!(packet.ty(), TYPE_SMS_REQUEST);
    assert_eq!(packet.body.str_member("phoneNumber"), Some("+1555"));
    assert_eq!(packet.body.str_member("messageBody"), Some("on my way"));
    manager.on_closed("a");
    let why = manager.ask_device("a", &sms).unwrap_err().message();
    assert_eq!(why, "device 'a' is offline");
}

#[test]
fn plugins_of_a_device_keep_what_packets_tell() {
    let mut manager = connected();
    assert!(manager.command_list("a").is_empty());
    assert!(manager.command_list("x").is_empty());
    let list = json(
        r#"{"commandList":[{"name":"z","command":"zz"},{"name":"lock","command":"loginctl"}]}"#,
    );
    let sync = Packet::new(&mut PacketIds::new(), TYPE_RUNCOMMAND, list);
    assert!(manager.on_packet("a", &sync, false, 1, None).is_empty());
    let rows = manager.command_list("a");
    assert_eq!(rows.len(), 2);
    assert_eq!(rows[0].str_member("name"), Some("lock"));
    assert_eq!(rows[0].str_member("command"), Some("loginctl"));
    assert_eq!(rows[1].str_member("name"), Some("z"));

    let ask = Packet::new(&mut PacketIds::new(), TYPE_RUNCOMMAND_REQUEST, json(r#"{"name":"z"}"#));
    let actions = manager.on_packet("a", &ask, false, 1, None);
    assert_eq!(sent(&actions).body.str_member("command"), Some("zz"));
}

#[test]
fn batteries_are_read_on_request_only() {
    let ask = Packet::new(&mut PacketIds::new(), TYPE_BATTERY_REQUEST, json("{}"));
    assert!(asks_for_battery(&ask));
    assert!(!asks_for_battery(&pair_packet(true)));
}

#[test]
fn restored_devices_have_their_plugins() {
    let mut manager = Manager::new("self".into(), registry());
    let row = |id: &str| DeviceRow {
        device_id: id.into(),
        name: "Phone".into(),
        device_type: "phone".into(),
        cert_fingerprint: "0102".into(),
        paired: true,
        last_seen: None,
    };
    manager.load_persisted(&vec![row("a"), row("self")]);
    assert!(manager.on_connected("a", &[1, 2], 11).0);
    let ping = Packet::new(&mut PacketIds::new(), TYPE_PING, json("{}"));
    assert_eq!(sent(&manager.on_packet("a", &ping, false, 1, None)).ty(), TYPE_PING);
    assert_eq!(manager.snapshot().len(), 1);
}

#[test]
fn shown_notifications_are_listed_until_dismissed() {
    let mut notices = Notices::new();
    let arrives = |id: &str, title: &str| Event::NotificationReceived {
        id: id.into(),
        app: "mail".into(),
        title: title.into(),
        body: "b".into(),
    };
    notices.note(&arrives("2", "old"));
    notices.note(&arrives("1", "one"));
    notices.note(&arrives("2", "new"));
    notices.note(&Event::DaemonShutdown);
    let rows = notices.list();
    assert_eq!(rows.len(), 2);
    assert_eq!(rows[0].render(), br#"{"app":"mail","body":"b","id":"1","title":"one"}"#);
    assert_eq!(rows[1].str_member("title"), Some("new"));
    notices.dismiss("1");
    notices.dismiss("nope");
    assert_eq!(notices.list().len(), 1);

    let mut manager = connected();
    let body = json(r#"{"id":"n","appName":"mail","title":"t","text":"x"}"#);
    let packet = Packet::new(&mut PacketIds::new(), TYPE_NOTIFICATION, body);
    for action in manager.on_packet("a", &packet, false, 1, None) {
        if let Action::Publish(event) = action {
            notices.note(&event);
        }
    }
    assert_eq!(notices.list()[1].str_member("body"), Some("x"));
}

#[test]
fn local_volume_is_read_and_set() {
    let report = "Volume: front-left: 26214 /  40% / -23.88 dB,   front-right: 1 /   9% / x\n";
    let volume = read_volume(report, "Mute: no\n").unwrap();
    assert_eq!(volume, LocalVolume { percent: 40, muted: false });
    assert!(read_volume(report, "Mute: yes\n").unwrap().muted);
    assert_eq!(read_volume("153%", "").unwrap().percent, 100);
    assert_eq!(read_volume("% -5% x% 99999999999999999999%", "").unwrap().percent, 100);
    assert_eq!(read_volume("-5% loud", "Mute: yes"), None);
    assert_eq!(volume_argument(0).as_deref(), Some("0%"));
    assert_eq!(volume_argument(100).as_deref(), Some("100%"));
    assert_eq!(volume_argument(101), None);
}

#[test]
fn files_are_announced_and_listed() {
    let mut manager = connected();
    let stat = SourceStat::File { size: 10, modified_ms: Some(5) };
    let (sending, actions) = manager.send_file("a", &local("/tmp/photo.jpg"), &stat);
    assert!(actions.is_empty());
    let sending = sending.unwrap();
    assert_eq!(sending.file_name, "photo.jpg");
    let header = manager.share_header(&sending, Some(1740));
    assert_eq!(header.ty(), TYPE_SHARE);
    assert_eq!(header.body.str_member("filename"), Some("photo.jpg"));
    assert_eq!(header.payload_size(), Some(10));
    assert_eq!(header.payload_transfer_port(), Some(1740));
    let (id, actions) = manager.finish_send(&sending, Ok(()));
    let id = id.unwrap();
    assert!(actions.iter().any(|action| matches!(
        action,
        Action::Publish(Event::TransferAdded { direction, .. }) if direction == "outgoing"
    )));
    assert_eq!(manager.transfer_list()[0].str_member("fileName"), Some("photo.jpg"));
    assert_eq!(manager.transfer_snapshot()[0].str_member("state"), Some("active"));

    manager.cancel_transfer(&id).unwrap();
    assert!(manager.is_cancelled(&id));
    manager.on_transfer_outcome(&id, Err("cancelled".into()));
    assert_eq!(manager.transfer_snapshot()[0].str_member("state"), Some("failed"));
    assert!(manager.cancel_transfer(&id).is_err());
    assert!(manager.cancel_transfer("nope").is_err());
}

#[test]
fn sending_fails_for_what_cannot_be_sent() {
    let manager = connected();
    let why = |stat: SourceStat, id: &str| {
        manager.send_file(id, &local("/tmp/f"), &stat).0.map(|_| ()).unwrap_err().message()
    };
    assert_eq!(why(SourceStat::Unreadable("gone".into()), "a"), "cannot stat /tmp/f: gone");
    assert_eq!(why(SourceStat::NotAFile, "a"), "/tmp/f is not a regular file");
    let file = SourceStat::File { size: 1, modified_ms: None };
    assert_eq!(why(file, "x"), "device 'x' is unknown");
}

#[test]
fn devices_are_listed_by_name() {
    let mut manager = manager();
    announce(&mut manager, "1", "Zebra");
    announce(&mut manager, "2", "Apple");
    let rows = manager.snapshot();
    assert_eq!(rows[0].str_member("name"), Some("Apple"));
    assert_eq!(rows[1].str_member("device_id"), Some("1"));
    assert_eq!(rows[1].bool_member("paired"), Some(false));
    assert_eq!(rows[1].bool_member("online"), Some(false));
}

#[test]
fn rejects_zero_port_without_spawning() {
    let mut manager = SftpManager::new();
    let err = manager.begin_session("dev", 0).unwrap_err();
    assert!(err.message().contains("port 0"));
    assert!(!manager.is_active("dev"));
}

#[test]
fn missing_binary_yields_descriptive_error() {
    let bogus = "/nonexistent/handfast/mock-sftp-server";
    let absent = vec![false; candidates().len()];
    let binary = locate_server_binary(Some(bogus.into()), &absent, None).unwrap();
    assert_eq!(binary, bogus);
    let mut manager = SftpManager::new();
    manager.begin_session("dev", 1022).unwrap();
    let msg = manager
        .start_session("dev", 1022, &binary, &Launch::SpawnFailed("not found".into()))
        .unwrap_err()
        .message();
    assert!(msg.contains("sftp"), "unexpected message: {msg}");
    assert!(msg.contains(bogus), "error should name the failing binary: {msg}");
    assert!(matches!(locate_server_binary(None, &absent, None), Err(Error::Other(_))));
    assert_eq!(
        locate_server_binary(None, &absent, Some("/opt/sftp-server".into())).unwrap(),
        "/opt/sftp-server"
    );
}

#[test]
fn lifecycle_covers_start_restart_and_stop_transitions() {
    let mut manager = SftpManager::new();
    assert!(!manager.is_active("phone-a"));

    assert!(!manager.begin_session("phone-a", 2222).unwrap());
    manager.start_session("phone-a", 2222, "mock", &Launch::Running).unwrap();
    assert!(manager.is_active("phone-a"));
    assert_eq!(manager.session_port("phone-a"), Some(2222));

    // A second request refreshes instead of doubling the process.
    assert!(manager.begin_session("phone-a", 3333).unwrap());
    manager.start_session("phone-a", 3333, "mock", &Launch::Running).unwrap();
    assert!(manager.is_active("phone-a"));
    assert_eq!(manager.session_port("phone-a"), Some(3333));

    // Sessions are kept independently per device.
    manager.start_session("phone-b", 4444, "mock", &Launch::Running).unwrap();
    assert!(manager.is_active("phone-b"));

    assert!(manager.stop_session("phone-a"));
    assert!(!manager.is_active("phone-a"));
    assert!(manager.is_active("phone-b"));

    assert!(manager.stop_session("phone-b"));
    assert!(!manager.is_active("phone-b"));

    // Stopping an unknown device is a no-op.
    assert!(!manager.stop_session("ghost"));
    assert_eq!(home_dir(Some(String::new()), Some("C:".into())).as_deref(), Some("C:"));
    assert!(path_places("/a:/b").iter().any(|place| place.starts_with("/b/")));
}

#[test]
fn control_handshakes_introduce_and_cross_check() {
    let plain = identity("a", "Phone");
    let line = introduction(&mut PacketIds::new(), &plain).expect("short enough");
    assert_eq!(line.last(), Some(&b'\n'));
    let mut reader = PlaintextReader::new();
    let mut found = None;
    for byte in line.iter() {
        if let Some(peer) = reader.push(*byte).expect("accepted") {
            found = Some(peer);
        }
    }
    assert_eq!(found, Some(identity("a", "Phone")));

    let secure = Packet::identity(&mut PacketIds::new(), &plain);
    assert!(accept_exchange(&plain, &secure).is_ok());
    assert!(accept_exchange(&identity("b", "Phone"), &secure).is_err());
    let ping = Packet::new(&mut PacketIds::new(), TYPE_PING, Json::Null);
    assert!(accept_exchange(&plain, &ping).is_err());
    assert!(cross_check(&plain, &plain).is_ok());
    assert!(answers_announcement("a", &plain) && !answers_announcement("b", &plain));
}

#[test]
fn control_handshakes_say_why_they_fail() {
    let text = |err: Error| err.message();
    let tls = PlaintextReader::new().push(22).unwrap_err();
    assert_eq!(text(tls), "peer did not start with a plaintext identity packet");

    let mut endless = PlaintextReader::new();
    endless.push(b'{').unwrap();
    for _ in 1..MAX_PACKET_LEN {
        assert_eq!(endless.push(b' ').unwrap(), None);
    }
    assert_eq!(
        text(endless.push(b' ').unwrap_err()),
        "identity line exceeds MAX_PACKET_LEN (524288)"
    );
    // A line of the greatest length is still read.
    assert!(text(endless.push(b'\n').unwrap_err())
        .starts_with("malformed plaintext identity packet"));
    let mut longest = identity("a", "");
    let spare = introduction(&mut PacketIds::new(), &longest).unwrap().len() - 1;
    longest.name = "x".repeat(MAX_PACKET_LEN - spare);
    let line = introduction(&mut PacketIds::new(), &longest).unwrap();
    assert_eq!(line.len(), MAX_PACKET_LEN + 1);
    let mut reader = PlaintextReader::new();
    let mut found = None;
    for byte in line.iter() {
        found = reader.push(*byte).unwrap();
    }
    assert_eq!(found.map(|peer| peer.device_id), Some("a".to_string()));

    let ping = Packet::new(&mut PacketIds::new(), TYPE_PING, Json::Null);
    let expected = "expected kdeconnect.identity as first packet, got kdeconnect.ping";
    assert_eq!(text(exchange(&ping).unwrap_err()), expected);
    assert_eq!(text(read_line(&ping.to_json().render()).unwrap_err()), expected);
    assert!(text(read_line(b"{").unwrap_err()).starts_with("malformed plaintext identity packet"));
    let hollow = Packet::new(&mut PacketIds::new(), "kdeconnect.identity", Json::Null);
    assert!(text(exchange(&hollow).unwrap_err()).starts_with("malformed identity body"));
    let anonymous = Packet::identity(&mut PacketIds::new(), &identity("", "Phone"));
    assert_eq!(text(exchange(&anonymous).unwrap_err()), "peer identity lacks deviceId");

    let plain = identity("a", "Phone");
    assert_eq!(
        text(cross_check(&plain, &identity("b", "Phone")).unwrap_err()),
        "device id changed during handshake: a -> b"
    );
    let mut older = identity("a", "Phone");
    older.protocol_version = 7;
    assert_eq!(
        text(cross_check(&plain, &older).unwrap_err()),
        "protocol version changed during handshake: 8 -> 7"
    );

    let mut wide = identity("a", "Phone");
    wide.name = "x".repeat(MAX_PACKET_LEN);
    assert!(introduction(&mut PacketIds::new(), &wide).is_err());
}

#[test]
fn datagrams_introduce_other_devices() {
    let bytes = announcement(&mut PacketIds::new(), &identity("a", "Phone"));
    assert_eq!(parse_datagram(&bytes, "self"), Some(identity("a", "Phone")));
    assert_eq!(parse_datagram(&bytes, "a"), None);
    assert_eq!(parse_datagram(b"noise", "self"), None);
}

#[test]
fn first_certificate_gives_the_fingerprint() {
    let chain = vec![b"abc".to_vec(), b"def".to_vec()];
    let print = fingerprint_of_first(Some(&chain)).unwrap();
    assert_eq!(print[..4], [0xba, 0x78, 0x16, 0xbf]);
    assert!(fingerprint_of_first(None).is_err());
    assert!(fingerprint_of_first(Some(&Vec::new())).is_err());
}

#[test]
fn battery_levels_are_read_and_reported_on_change() {
    let level = sysfs_level("BAT0", Some("87\n".into()), Some("Charging\n".into())).unwrap();
    assert_eq!(level, BatteryLevel { percent: 87, state: "charging".into() });
    assert!(sysfs_level("AC", Some("1".into()), None).is_none());
    assert!(sysfs_level("BAT0", None, None).is_none());
    assert_eq!(sysfs_level("BAT1", Some("5".into()), None).unwrap().state, "unknown");
    assert_eq!(upower_level(87.5f64.to_bits(), 1).percent, 88);
    assert_eq!(upower_level(f64::NAN.to_bits(), 1).percent, 0);
    assert_eq!(upower_level(250.0f64.to_bits(), 2).percent, 100);
    let both = vec![
        BatteryLevel { percent: 40, state: "discharging".into() },
        BatteryLevel { percent: 60, state: "discharging".into() },
    ];
    assert_eq!(summarize_levels(&both).percent, 50);
    let text = battery_message(&BatteryLevel { percent: 87, state: "charging".into() });
    assert!(text.contains("87") && text.contains("charging"), "{text}");

    let mut watch = BatteryWatch::new();
    let level = || BatteryLevel { percent: 40, state: "full".into() };
    assert!(watch.observe(level()).is_some());
    assert!(watch.observe(level()).is_none());
    assert!(watch.observe(BatteryLevel { percent: 41, state: "full".into() }).is_some());
}

#[test]
fn desktop_signals_become_notifications() {
    let event = notification_event(
        Some("ActionInvoked".into()),
        Some(":1.5".into()),
        &SignalBody::Action(3, "default".into()),
    );
    assert!(matches!(event, Event::NotificationReceived { .. }));
}

#[test]
fn requests_are_routed() {
    assert!(matches!(handle_request(Request::DaemonInfo), Route::DescribeDaemon));
    assert!(matches!(handle_request(Request::DeviceList), Route::ListDevices));
    assert!(matches!(
        handle_request(Request::DevicePair { device_id: "a".into() }),
        Route::Pair(ref id) if id == "a"
    ));
    assert!(matches!(
        handle_request(Request::SendFile { device_id: "a".into(), path: "/f".into() }),
        Route::SendFile { ref path, .. } if path == "/f"
    ));
    match handle_request(Request::Ping) {
        Route::Reply(Response::Success { result }) => assert_eq!(result, Json::Null),
        other => panic!("expected a reply, got {other:?}"),
    }
    assert!(matches!(
        handle_request(Request::PluginList { device_id: "a".into() }),
        Route::ListPlugins(ref id) if id == "a"
    ));
    assert!(matches!(handle_request(Request::NotificationList), Route::ListNotices));
    assert!(matches!(
        handle_request(Request::NotificationDismiss { notification_id: "n".into() }),
        Route::DismissNotice(ref id) if id == "n"
    ));
    assert!(matches!(handle_request(Request::GetVolume), Route::ReadVolume));
    assert!(matches!(
        handle_request(Request::SetVolume { percent: 30 }),
        Route::WriteVolume(30)
    ));
    assert!(matches!(
        handle_request(Request::SetVolume { percent: 101 }),
        Route::Reply(Response::Failure { code: 7000, .. })
    ));
    assert!(matches!(
        handle_request(Request::RunCommandList { device_id: "a".into() }),
        Route::ListCommands(ref id) if id == "a"
    ));
    let device_id = || "a".to_string();
    let messages = vec![
        (
            Request::RunCommand { device_id: device_id(), command_name: "c".into() },
            DeviceRequest::RunCommand("c".into()),
            6000,
        ),
        (
            Request::ShareText { device_id: device_id(), text: "t".into() },
            DeviceRequest::ShareText("t".into()),
            8000,
        ),
        (
            Request::ShareUrl { device_id: device_id(), url: "u".into() },
            DeviceRequest::ShareUrl("u".into()),
            8001,
        ),
        (Request::RequestBattery { device_id: device_id() }, DeviceRequest::Battery, 9000),
        (
            Request::SendSms { device_id: device_id(), number: "1".into(), text: "x".into() },
            DeviceRequest::Sms { number: "1".into(), text: "x".into() },
            9001,
        ),
    ];
    for (request, wanted, code) in messages {
        match handle_request(request) {
            Route::Message { device_id, request } => {
                assert_eq!((device_id.as_str(), &request), ("a", &wanted));
                assert_eq!(message_code(&request), code);
            }
            other => panic!("expected a message, got {other:?}"),
        }
    }
}

#[test]
fn plugins_are_listed_with_their_toggles() {
    let keys = plugin_keys("dev");
    assert_eq!((keys.len(), keys[0].as_str()), (17, "plugin:dev:battery"));
    let toggle = Request::PluginSetEnabled {
        device_id: "dev".into(),
        plugin: "battery".into(),
        enabled: false,
    };
    match handle_request(toggle) {
        Route::SwitchPlugin { device_id, plugin, enabled, key, value } => {
            assert_eq!((device_id.as_str(), plugin.as_str(), enabled), ("dev", "battery", false));
            assert_eq!((key.as_str(), value.as_str()), ("plugin:dev:battery", "0"));
        }
        other => panic!("expected a switch, got {other:?}"),
    }
    let mut stored = vec![None; 17];
    let plain = parse_plugins(&plugin_list(&stored));
    assert!(plain[0].enabled && !plain[8].enabled);
    stored[0] = Some("0".to_string());
    stored[8] = Some("1".to_string());
    stored[1] = Some("else".to_string());
    let rows = parse_plugins(&plugin_list(&stored));
    assert_eq!((rows[0].name.as_str(), rows[0].enabled), ("battery", false));
    assert_eq!((rows[8].name.as_str(), rows[8].enabled), ("pause_music", true));
    assert_eq!(rows[1].enabled, plain[1].enabled);
    assert_eq!(parse_plugins(&plugin_list(&Vec::new())), plain);
    let toggles = recall(&stored);
    assert_eq!(toggles.len(), 2);
    assert_eq!(toggles.get("battery"), Some(&false));
    assert_eq!(toggles.get("pause_music"), Some(&true));
    match plugins_response(Ok(stored)) {
        Response::Success { result } => {
            let first = &result.as_array().unwrap()[0];
            assert_eq!(first.bool_member("enabled"), Some(false));
            assert_eq!(first.bool_member("default_enabled"), Some(true));
        }
        other => panic!("expected success, got {other:?}"),
    }
}

#[test]
fn answers_describe_the_daemon() {
    let session = Session {
        kind: "wayland".into(),
        compositor: None,
        protocols: vec!["zwlr".into()],
    };
    match daemon_info("0.1.0", "dev", &session) {
        Response::Success { result } => {
            assert_eq!(result.str_member("app"), Some("handfast"));
            assert_eq!(result.u64_member("ipc"), Some(1));
            assert_eq!(result.str_member("device_id"), Some("dev"));
        }
        other => panic!("expected success, got {other:?}"),
    }
    assert!(matches!(pair_response(Ok(true)), Response::Success { .. }));
    assert!(matches!(pair_response(Err(Error::Other("x".into()))), Response::Failure { .. }));
    let me = build_self_identity("dev", "Desk");
    assert_eq!((me.device_type.as_str(), me.tcp_source_port), ("desktop", 1716));
    assert!(me.supports_incoming(TYPE_PING));
    let dirs = Paths {
        config: "/c".into(),
        data: "/d".into(),
        cache: "/e".into(),
        runtime: "/r".into(),
    };
    assert_eq!(state_db_path(None, &dirs), "/d/state.db");
    assert_eq!(state_db_path(Some("/x"), &dirs), "/x/state.db");
    assert_eq!(state_dir(None, &dirs), "/d");
    assert_eq!(state_dir(Some("/x"), &dirs), "/x");
    assert_eq!(abstract_name("@handfast").as_deref(), Some("handfast"));
    assert_eq!(abstract_name("/run/x"), None);
}

#[test]
fn answers_carry_their_codes() {
    let no = || Error::Other("no".to_string());
    let code = |response: Response| match response {
        Response::Failure { code, message } => {
            assert_eq!(message, "no");
            code
        }
        Response::Success { .. } => 0,
    };
    assert_eq!(code(pair_response(Err(no()))), 2001);
    assert_eq!(code(unpair_response(Err(no()))), 2002);
    assert_eq!(code(setting_response(Err(no()))), 3000);
    assert_eq!(code(send_response(Err(no()))), 4000);
    assert_eq!(code(cancel_response(Err(no()))), 4001);
    assert_eq!(code(clipboard_set_response(Err(no()))), 5000);
    assert_eq!(code(clipboard_get_response(Err(no()))), 5000);
    assert_eq!(code(plugins_response(Err(no()))), 3000);
    assert_eq!(code(volume_set_response(Err(no()))), 7000);
    assert_eq!(code(volume_get_response(Err(no()))), 7001);
    assert_eq!(code(message_response(9001, Err(no()))), 9001);

    let result = |response: Response| match response {
        Response::Success { result } => result,
        Response::Failure { message, .. } => panic!("unexpected failure {message}"),
    };
    assert_eq!(result(unpair_response(Ok(()))), json(r#"{"unpaired":true}"#));
    assert_eq!(result(setting_response(Ok(()))), json(r#"{"saved":true}"#));
    assert_eq!(result(send_response(Ok(()))), json(r#"{"queued":true}"#));
    assert_eq!(result(cancel_response(Ok(()))), json(r#"{"cancelled":true}"#));
    assert_eq!(result(clipboard_set_response(Ok(()))), json(r#"{"set":true}"#));
    assert_eq!(result(clipboard_get_response(Ok("hi".into()))), json(r#"{"text":"hi"}"#));
    assert_eq!(result(list_response(vec![Json::Uint(1)])), json("[1]"));
    assert_eq!(result(message_response(9001, Ok(()))), json(r#"{"queued":true}"#));
    assert_eq!(result(dismiss_response()), json(r#"{"dismissed":true}"#));
    assert_eq!(result(volume_set_response(Ok(()))), json(r#"{"set":true}"#));
    let volume = LocalVolume { percent: 40, muted: true };
    assert_eq!(
        result(volume_get_response(Ok(volume))).render(),
        br#"{"muted":true,"percent":40}"#
    );
    assert_eq!(send_failure("phone", &no()), "phone: no");
}

#[test]
fn share_payloads_start_receives_or_fail() {
    let mut m = manager();
    m.on_connected("a", &[1, 2], 5);
    assert!(m.can_register());
    let header = Packet::new(&mut PacketIds::new(), TYPE_SHARE, json(r#"{"filename":"x.bin"}"#))
        .with_payload(9, 1740);
    let actions = m.on_share_payload("a", &header, Ok((77, vec![1, 2])));
    assert!(matches!(&actions[0], Action::Publish(Event::TransferAdded { total: 9, .. })));
    match &actions[1] {
        Action::Receive { transfer_id, device_id, file_name, size, link } => {
            assert_eq!((transfer_id.as_str(), device_id.as_str()), ("t1", "a"));
            assert_eq!((file_name.as_str(), *size, *link), ("x.bin", 9, Some(77)));
        }
        other => panic!("unexpected action {other:?}"),
    }
    let actions = m.on_share_payload("a", &header, Err("refused".into()));
    assert!(matches!(&actions[1], Action::Publish(Event::TransferFailed { id, reason })
        if id == "t2" && reason == "refused"));
    assert!(m.on_share_payload("ghost", &header, Ok((1, vec![3]))).is_empty());
}

#[test]
fn data_connections_must_present_the_pinned_certificate() {
    let mut m = connected();
    let header = Packet::new(&mut PacketIds::new(), TYPE_SHARE, json(r#"{"filename":"x.bin"}"#))
        .with_payload(9, 1740);
    // Nothing is pinned for a device that is not paired.
    assert!(m.admits_payload("a", &[9, 9]) && m.admits_payload("ghost", &[9]));
    let actions = m.on_share_payload("a", &header, Ok((70, vec![9, 9])));
    assert!(matches!(&actions[1], Action::Receive { link: Some(70), .. }));

    m.begin_pairing("a", 7);
    m.on_packet("a", &pair_packet(true), false, 5_000, None);
    assert!(m.admits_payload("a", &[1, 2]));
    assert!(!m.admits_payload("a", &[9, 9]) && !m.admits_payload("a", &[]));
    let actions = m.on_share_payload("a", &header, Ok((71, vec![1, 2])));
    assert!(matches!(&actions[1], Action::Receive { link: Some(71), .. }));

    let actions = m.on_share_payload("a", &header, Ok((72, vec![9, 9])));
    assert_eq!(actions.len(), 2);
    match &actions[0] {
        Action::Publish(Event::TransferAdded { id, device_id, file_name, .. }) => {
            assert_eq!((id.as_str(), device_id.as_str()), ("t3", "a"));
            assert_eq!(file_name, "x.bin");
        }
        other => panic!("unexpected action {other:?}"),
    }
    assert!(matches!(&actions[1], Action::Publish(Event::TransferFailed { id, reason })
        if id == "t3" && reason == "cert mismatch for a: possible spoofing"));
    let rows = m.transfer_snapshot();
    assert_eq!(rows.len(), 3);
    assert_eq!(rows[2].str_member("state"), Some("failed"));

    // The pin stays while the device is away, until it is revoked.
    m.on_closed("a");
    assert!(!m.admits_payload("a", &[9, 9]));
    m.unpair("a", 6_000);
    assert!(m.admits_payload("a", &[9, 9]));
}

#[test]
fn disabled_plugins_see_no_packets() {
    let mut m = connected();
    let list = json(r#"{"commandList":[{"name":"z","command":"zz"}]}"#);
    let sync = Packet::new(&mut PacketIds::new(), TYPE_RUNCOMMAND, list);
    let ping = Packet::new(&mut PacketIds::new(), TYPE_PING, json("{}"));
    m.set_plugin_enabled("a", "ping", false);
    m.set_plugin_enabled("a", "run_commands", false);
    assert!(m.on_packet("a", &ping, false, 1, None).is_empty());
    assert!(m.on_packet("a", &sync, false, 1, None).is_empty());
    assert!(m.command_list("a").is_empty());

    // Plugins of other devices are not concerned.
    m.on_connected("b", &[5], 12);
    assert!(matches!(
        &m.on_packet("b", &ping, false, 1, None)[0],
        Action::Send { link: 12, packet, .. } if packet.ty() == TYPE_PING
    ));

    m.set_plugin_enabled("a", "ping", true);
    assert_eq!(sent(&m.on_packet("a", &ping, false, 1, None)).ty(), TYPE_PING);
    assert!(m.on_packet("a", &sync, false, 1, None).is_empty());
    assert!(m.command_list("a").is_empty());
    m.set_plugin_enabled("a", "run_commands", true);
    m.on_packet("a", &sync, false, 1, None);
    assert_eq!(m.command_list("a").len(), 1);
}

#[test]
fn stored_toggles_hold_after_a_restart() {
    let mut m = connected();
    let ping = Packet::new(&mut PacketIds::new(), TYPE_PING, json("{}"));
    let keys = plugin_keys("a");
    let place = keys.iter().position(|key| key == "plugin:a:ping").unwrap();
    let off = Request::PluginSetEnabled {
        device_id: "a".into(),
        plugin: "ping".into(),
        enabled: false,
    };
    let mut stored = vec![None; keys.len()];
    match handle_request(off) {
        Route::SwitchPlugin { device_id, plugin, enabled, key, value } => {
            m.set_plugin_enabled(&device_id, &plugin, enabled);
            assert!(m.on_packet("a", &ping, false, 1, None).is_empty());
            assert_eq!(key, keys[place]);
            stored[place] = Some(value);
        }
        other => panic!("expected a switch, got {other:?}"),
    }
    let mut m = connected();
    m.restore_toggles("a", &stored);
    assert!(m.on_packet("a", &ping, false, 1, None).is_empty());
    // A text that is no toggle says nothing.
    stored[place] = Some("off".to_string());
    m.restore_toggles("a", &stored);
    assert_eq!(sent(&m.on_packet("a", &ping, false, 1, None)).ty(), TYPE_PING);
    m.restore_toggles("a", &Vec::new());
    assert_eq!(sent(&m.on_packet("a", &ping, false, 1, None)).ty(), TYPE_PING);
}

#[test]
fn pairing_requests_that_cannot_be_sent_fail() {
    let mut m = manager();
    m.on_connected("a", &[1], 5);
    assert!(matches!(m.begin_pairing("a", 3)[0], Action::Send { link: 5, .. }));
    let actions = m.pairing_not_sent("a", Error::Other("queue full".into()));
    match &actions[0] {
        Action::AnswerPairing { ticket: 3, answer: Err(why) } => {
            assert_eq!(why.message(), "queue full");
        }
        other => panic!("unexpected action {other:?}"),
    }
    assert!(m.pairing_not_sent("a", Error::Other("again".into())).is_empty());
}

#[test]
fn battery_polls_report_changes_only() {
    let mut watch = BatteryWatch::new();
    assert!(watch.poll(None).is_none());
    assert!(watch.poll(Some(&Vec::new())).is_none());
    let levels = vec![
        BatteryLevel { percent: 80, state: "charging".into() },
        BatteryLevel { percent: 41, state: "full".into() },
    ];
    assert_eq!(
        watch.poll(Some(&levels)),
        Some(Event::LogRecord {
            level: "info".into(),
            msg: "battery: 60% (charging+full)".into(),
        })
    );
    assert!(watch.poll(Some(&levels)).is_none());
}
