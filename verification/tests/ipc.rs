use handfast::base::bus::Event;
use handfast::ipc::client::{encode_request, Connection, Routed};
use handfast::ipc::codec::{decode_payload, encode_frame, frame_payload, FrameReader};
use handfast::ipc::server::{hello, read_request, ClientSession, Outbound, SessionStep};
use handfast::ipc::{
    default_socket_path, peer_is_owner, Error, Request, Response, ServerEvent, IPC_VERSION,
    MAX_FRAME_BYTES,
};
use handfast::json::Json;

/// Parse a JSON document.
fn json(text: &str) -> Json {
    Json::parse(text.as_bytes()).expect("valid JSON")
}

/// Both documents say the same, whatever the order of their members.
fn assert_json(found: &Json, expected: &str) {
    assert_eq!(
        String::from_utf8(found.render()),
        String::from_utf8(json(expected).render())
    );
}

/// Round-trip a request through its JSON bytes and return the document.
fn roundtrip_request(request: &Request) -> Json {
    let raw = request.to_json();
    let back = Request::from_json(&Json::parse(&raw.render()).unwrap()).expect("request");
    assert_eq!(back, *request);
    assert_eq!(back.to_json().render(), raw.render());
    raw
}

/// Same as [`roundtrip_request`] for server events.
fn roundtrip_event(event: &ServerEvent) -> Json {
    let raw = event.to_json();
    let back = ServerEvent::from_json(&Json::parse(&raw.render()).unwrap()).expect("event");
    assert_eq!(back, *event);
    assert_eq!(back.to_json().render(), raw.render());
    raw
}

#[test]
fn transfer_requests_roundtrip_with_snake_case_tags() {
    let wire = roundtrip_request(&Request::TransferList);
    assert_json(&wire, r#"{ "method": "transfer_list" }"#);

    let wire = roundtrip_request(&Request::TransferCancel {
        transfer_id: "t-1".into(),
    });
    assert_json(&wire, r#"{ "method": "transfer_cancel", "params": { "transfer_id": "t-1" } }"#);
}

#[test]
fn command_requests_roundtrip() {
    let wire = roundtrip_request(&Request::RunCommandList {
        device_id: "d1".into(),
    });
    assert_json(&wire, r#"{ "method": "run_command_list", "params": { "device_id": "d1" } }"#);

    let wire = roundtrip_request(&Request::RunCommand {
        device_id: "d1".into(),
        command_name: "screenshot".into(),
    });
    assert_json(&wire, r#"{ "method": "run_command", "params": { "device_id": "d1", "command_name": "screenshot" } }"#);
}

#[test]
fn volume_requests_roundtrip() {
    let wire = roundtrip_request(&Request::SetVolume { percent: 42 });
    assert_json(&wire, r#"{ "method": "set_volume", "params": { "percent": 42 } }"#);

    let wire = roundtrip_request(&Request::GetVolume);
    assert_json(&wire, r#"{ "method": "get_volume" }"#);
}

#[test]
fn share_and_battery_and_sms_requests_roundtrip() {
    let wire = roundtrip_request(&Request::ShareText {
        device_id: "d1".into(),
        text: "hello".into(),
    });
    assert_json(&wire, r#"{ "method": "share_text", "params": { "device_id": "d1", "text": "hello" } }"#);

    let wire = roundtrip_request(&Request::ShareUrl {
        device_id: "d1".into(),
        url: "https://example.com".into(),
    });
    assert_json(&wire, r#"{ "method": "share_url", "params": { "device_id": "d1", "url": "https://example.com" } }"#);

    let wire = roundtrip_request(&Request::RequestBattery {
        device_id: "d2".into(),
    });
    assert_json(&wire, r#"{ "method": "request_battery", "params": { "device_id": "d2" } }"#);

    let wire = roundtrip_request(&Request::SendSms {
        device_id: "d2".into(),
        number: "+15550001111".into(),
        text: "ping".into(),
    });
    assert_json(&wire, r#"{ "method": "send_sms", "params": { "device_id": "d2", "number": "+15550001111", "text": "ping" } }"#);
}

#[test]
fn transfer_events_roundtrip() {
    let wire = roundtrip_event(&ServerEvent::TransferAdded {
        id: "t-9".into(),
        device_id: "d1".into(),
        direction: "incoming".into(),
        file_name: "report.pdf".into(),
        total: 2048,
    });
    assert_json(&wire, r#"{ "event": "transfer_added", "data": { "id": "t-9", "device_id": "d1", "direction": "incoming", "file_name": "report.pdf", "total": 2048 } }"#);

    let wire = roundtrip_event(&ServerEvent::TransferFinished { id: "t-9".into() });
    assert_json(&wire, r#"{ "event": "transfer_finished", "data": { "id": "t-9" } }"#);

    let wire = roundtrip_event(&ServerEvent::TransferFailed {
        id: "t-10".into(),
        reason: "peer disconnected".into(),
    });
    assert_json(&wire, r#"{ "event": "transfer_failed", "data": { "id": "t-10", "reason": "peer disconnected" } }"#);
}

#[test]
fn battery_telephony_volume_command_events_roundtrip() {
    let wire = roundtrip_event(&ServerEvent::BatteryChanged {
        device_id: "d1".into(),
        level: 87,
        charging: true,
    });
    assert_json(&wire, r#"{ "event": "battery_changed", "data": { "device_id": "d1", "level": 87, "charging": true } }"#);

    let wire = roundtrip_event(&ServerEvent::TelephonyEvent {
        device_id: "d1".into(),
        state: "ringing".into(),
        number: Some("+15550002222".into()),
    });
    assert_json(&wire, r#"{ "event": "telephony_event", "data": { "device_id": "d1", "state": "ringing", "number": "+15550002222" } }"#);

    let back = ServerEvent::from_json(&json(r#"{ "event": "telephony_event", "data": { "device_id": "d1", "state": "idle", "number": null } }"#))
            .expect("telephony_event with null number deserializes");
    match back {
        ServerEvent::TelephonyEvent {
            device_id,
            state,
            number,
        } => {
            assert_eq!(device_id, "d1");
            assert_eq!(state, "idle");
            assert_eq!(number, None);
        }
        other => panic!("expected TelephonyEvent, got {other:?}"),
    }

    let wire = roundtrip_event(&ServerEvent::VolumeChanged {
        percent: 33,
        muted: false,
    });
    assert_json(&wire, r#"{ "event": "volume_changed", "data": { "percent": 33, "muted": false } }"#);

    let wire = roundtrip_event(&ServerEvent::CommandResult {
        device_id: "d3".into(),
        name: "battery".into(),
        success: true,
        output: "ok".into(),
    });
    assert_json(&wire, r#"{ "event": "command_result", "data": { "device_id": "d3", "name": "battery", "success": true, "output": "ok" } }"#);
}

/// Feed a stream in chunks of `step` bytes and collect its frames.
fn frames(stream: &[u8], step: usize) -> Result<Vec<Vec<u8>>, Error> {
    let mut reader = FrameReader::new();
    let mut found = Vec::new();
    for chunk in stream.chunks(step) {
        reader.feed(chunk);
        while let Some(payload) = reader.next()? {
            found.push(payload.to_vec());
        }
    }
    Ok(found)
}

#[test]
fn frame_roundtrip_preserves_values() {
    let document = json(r#"{ "hello": "world", "n": 7 }"#);
    let frame = encode_frame(&document).expect("encode_frame");
    for step in [1, 3, frame.len()] {
        let found = frames(&frame, step).expect("frames");
        assert_eq!(found.len(), 1);
        let decoded = decode_payload(&found[0]).expect("decode_payload");
        assert_json(&decoded, r#"{ "hello": "world", "n": 7 }"#);
    }
}

#[test]
fn oversized_declared_length_is_rejected() {
    // Claim a gigantic frame without sending any payload.
    match frames(&u32::MAX.to_le_bytes(), 4) {
        Err(Error::FrameTooLarge { size, max }) => {
            assert_eq!(size, u32::MAX as usize);
            assert_eq!(max, MAX_FRAME_BYTES);
        }
        other => panic!("expected FrameTooLarge, got {other:?}"),
    }
}

#[test]
fn oversized_serialized_payload_is_rejected_before_writing() {
    let huge = Json::text(&"x".repeat(MAX_FRAME_BYTES + 1));
    match encode_frame(&huge) {
        Err(err @ Error::FrameTooLarge { .. }) => {
            assert!(err.message().contains("frame too large"));
        }
        other => panic!("expected FrameTooLarge, got {other:?}"),
    }
}

#[test]
fn pipelined_frames_are_queued_not_dropped() {
    let mut wire = frame_payload(json(r#"{ "event": "hello" }"#).render()).unwrap();
    wire.extend(frame_payload(json(r#"{ "status": "ok", "result": 1 }"#).render()).unwrap());

    let mut reader = FrameReader::new();
    reader.feed(&wire);
    let first = reader.next().expect("no error").expect("first frame");
    assert_json(&decode_payload(&first).unwrap(), r#"{ "event": "hello" }"#);
    let second = reader.next().expect("no error").expect("second frame");
    assert_json(
        &decode_payload(&second).unwrap(),
        r#"{ "status": "ok", "result": 1 }"#,
    );
    // Drained: there is no further frame.
    assert!(matches!(reader.next(), Ok(None)));
}

#[test]
fn undecodable_payloads_are_json_errors() {
    assert!(matches!(decode_payload(b"{"), Err(Error::Json(_))));
    assert!(matches!(read_request(b"[]"), Err(Error::Json(_))));
    assert!(matches!(
        read_request(br#"{"method": "no_such_thing"}"#),
        Err(Error::Json(_))
    ));
    assert_eq!(read_request(br#"{"method": "ping"}"#).unwrap(), Request::Ping);
}

#[test]
fn responses_answer_requests_in_order() {
    let mut connection = Connection::new();
    connection.begin(1).expect("open");
    connection.begin(2).expect("open");

    let event = ServerEvent::DaemonShutdown.to_json().render();
    assert!(matches!(
        connection.on_frame(&event),
        Routed::Event(ServerEvent::DaemonShutdown)
    ));

    let pong = Response::ok_json(json(r#"{ "pong": true }"#)).to_json().render();
    match connection.on_frame(&pong) {
        Routed::Reply { ticket, response: Response::Success { result } } => {
            assert_eq!(ticket, 1);
            assert_json(&result, r#"{ "pong": true }"#);
        }
        other => panic!("expected a reply, got {other:?}"),
    }
    let refused = Response::err(404, "unimplemented").to_json().render();
    match connection.on_frame(&refused) {
        Routed::Reply { ticket, response: Response::Failure { code, .. } } => {
            assert_eq!((ticket, code), (2, 404));
        }
        other => panic!("expected a reply, got {other:?}"),
    }
}

#[test]
fn stray_frames_end_the_connection() {
    let mut connection = Connection::new();
    connection.begin(5).expect("open");
    match connection.on_frame(b"not json") {
        Routed::Close(failed) => assert_eq!(failed, vec![5]),
        other => panic!("expected the end, got {other:?}"),
    }
    assert!(matches!(connection.begin(6), Err(Error::Closed)));
    assert!(connection.fail_all_pending().is_empty());
}

#[test]
fn greetings_name_version_and_application() {
    match hello(77) {
        ServerEvent::Hello { version, app, pid } => {
            assert_eq!(version, IPC_VERSION);
            assert_eq!(app, "handfast");
            assert_eq!(pid, 77);
        }
        other => panic!("expected Hello, got {other:?}"),
    }
    assert_json(
        &Outbound::Event(hello(77)).to_json(),
        r#"{"event": "hello", "data": {"version": 1, "app": "handfast", "pid": 77}}"#,
    );
}

#[test]
fn bus_events_reach_clients() {
    let found = Event::DeviceFound { id: "d1".into(), name: "Phone".into() };
    assert_eq!(
        ServerEvent::from_event(found),
        Some(ServerEvent::DeviceFound { id: "d1".into(), name: "Phone".into() })
    );
    assert_eq!(
        ServerEvent::from_event(Event::DaemonShutdown),
        Some(ServerEvent::DaemonShutdown)
    );
}

#[test]
fn responses_read_back() {
    let success = Response::ok_json(json("[1]"));
    let back = Response::from_json(&Json::parse(&success.to_json().render()).unwrap());
    assert_eq!(back, Some(Response::ok_json(json("[1]"))));
    let failure = Response::err(-7, "denied");
    let back = Response::from_json(&Json::parse(&failure.to_json().render()).unwrap());
    assert_eq!(back, Some(Response::err(-7, "denied")));
    assert!(ServerEvent::from_json(&failure.to_json()).is_none());
}

#[test]
fn endpoints_and_peers() {
    assert_eq!(
        default_socket_path(Some("/run/user/1000"), Some(1000)),
        "/run/user/1000/handfast/handfast.sock"
    );
    assert_eq!(default_socket_path(None, Some(1000)), "/tmp/handfast-1000.sock");
    assert_eq!(default_socket_path(Some(""), None), "/tmp/handfast.sock");
    assert!(peer_is_owner(Some(1000), Some(1000)));
    assert!(!peer_is_owner(Some(0), Some(1000)));
    assert!(!peer_is_owner(None, Some(1000)));
    assert!(!peer_is_owner(Some(1000), None));
}

#[test]
fn sessions_serve_pipelined_requests_in_order() {
    let (mut session, greeting) =
        ClientSession::open(Some(1000), Some(1000), 5).expect("own user");
    assert_eq!(greeting, hello(5));
    let volume = Request::SetVolume { percent: 42 };
    let mut wire = encode_request(&Request::Ping).expect("fits");
    wire.extend(encode_request(&volume).expect("fits"));
    let (head, tail) = wire.split_at(7);
    session.feed(head);
    assert!(matches!(session.next(), SessionStep::Read));
    session.feed(tail);
    assert!(matches!(session.next(), SessionStep::Serve(Request::Ping)));
    assert!(matches!(session.next(), SessionStep::Serve(ref request) if *request == volume));
    assert!(matches!(session.next(), SessionStep::Read));
}

#[test]
fn sessions_end_on_what_is_no_request() {
    assert!(ClientSession::open(Some(0), Some(1000), 5).is_none());
    assert!(ClientSession::open(None, None, 5).is_none());
    let (mut session, _) = ClientSession::open(Some(1), Some(1), 5).expect("own user");
    session.feed(&frame_payload(b"{}".to_vec()).expect("fits"));
    assert!(matches!(session.next(), SessionStep::End(Error::Json(_))));
    let (mut session, _) = ClientSession::open(Some(1), Some(1), 5).expect("own user");
    session.feed(&u32::MAX.to_le_bytes());
    assert!(matches!(session.next(), SessionStep::End(Error::FrameTooLarge { .. })));
}

#[test]
fn queued_messages_reach_the_client() {
    let mut connection = Connection::new();
    connection.begin(9).expect("open");
    let mut wire = Outbound::Event(hello(3)).encode().expect("fits");
    wire.extend(
        Outbound::Response(Response::ok_json(json(r#"{"a": [1]}"#)))
            .encode()
            .expect("fits"),
    );
    let found = frames(&wire, 5).expect("frames");
    assert_eq!(found.len(), 2);
    assert!(matches!(
        connection.on_frame(&found[0]),
        Routed::Event(ServerEvent::Hello { pid: 3, .. })
    ));
    assert!(matches!(
        connection.on_frame(&found[1]),
        Routed::Reply { ticket: 9, response: Response::Success { .. } }
    ));
}
