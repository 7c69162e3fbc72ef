use bytes::BytesMut;
use handfast::json::{Float, Json, Record};
use handfast::protocol::frame::{LineReader, LineStep};
use handfast::protocol::tls::{
    cert_fingerprint, generation_failure, hex, temp_file_name, CertPair, GenerationStep,
};
use handfast::protocol::transfer::{
    TransferMeta, CHUNK_SIZE, PAYLOAD_CHUNK_SIZE, PAYLOAD_PORT_MAX, PAYLOAD_PORT_MIN,
};
use handfast::protocol::{
    Error, Identity, Packet, PacketIds, MAX_PACKET_LEN, PROTO_VERSION, TYPE_FINDMYPHONE,
    TYPE_IDENTITY, TYPE_NOTIFICATION, TYPE_NOTIFICATION_REQUEST, TYPE_PING, TYPE_SHARE,
    TYPE_TELEPHONY,
};

/// Parse a JSON document.
fn json(text: &str) -> Json {
    Json::parse(text.as_bytes()).expect("valid JSON")
}

/// Both documents say the same, whatever the order of their members.
fn assert_json(found: &Json, expected: &str) {
    assert_eq!(
        String::from_utf8(found.render()),
        String::from_utf8(json(expected).render())
    );
}

/// A packet with a fresh id.
fn packet(ty: &str, body: Json) -> Packet {
    Packet::new(&mut PacketIds::new(), ty, body)
}

/// Both packets say the same.
fn assert_same(a: &Packet, b: &Packet) {
    assert_eq!(a.to_json().render(), b.to_json().render());
}

fn sample_identity() -> Identity {
    Identity {
        device_id: "1111222233334444555566667777888899990000".to_string(),
        name: "Handfast Desktop".to_string(),
        device_type: "desktop".to_string(),
        protocol_version: PROTO_VERSION,
        incoming: vec![TYPE_NOTIFICATION.to_string(), TYPE_SHARE.to_string()],
        outgoing: vec![TYPE_PING.to_string(), TYPE_NOTIFICATION_REQUEST.to_string()],
        tcp_source_port: 1716,
    }
}

/// The bytes of a packet on the wire.
fn wire(packet: &Packet) -> Vec<u8> {
    let mut buf = BytesMut::new();
    packet.encode_into(&mut buf).expect("packet fits");
    buf.to_vec()
}

/// Read every frame of a stream that arrives in chunks of `step` bytes.
fn frames(stream: &[u8], step: usize) -> Result<Vec<Vec<u8>>, Error> {
    let mut reader = LineReader::new();
    let mut found = Vec::new();
    for chunk in stream.chunks(step) {
        let mut rest = chunk;
        while !rest.is_empty() {
            match reader.feed(rest)? {
                LineStep::Frame { payload, consumed } => {
                    found.push(payload.to_vec());
                    rest = &rest[consumed..];
                }
                LineStep::More => rest = &[],
            }
        }
    }
    Ok(found)
}

#[test]
fn packet_ids_are_monotonic() {
    let mut ids = PacketIds::new();
    let first = Packet::new(&mut ids, TYPE_PING, Json::Null);
    let second = Packet::new(&mut ids, TYPE_PING, Json::Null);
    assert!(
        second.id > first.id,
        "{} should be > {}",
        second.id,
        first.id
    );
}

#[test]
fn encode_uses_newline_framing() {
    let packet = packet(TYPE_PING, json(r#"{ "v": 1 }"#));
    let mut buf = BytesMut::new();
    packet.encode_into(&mut buf).unwrap();
    assert_eq!(buf.last(), Some(&b'\n'), "frame must end with a newline");
    assert_eq!(&buf[..buf.len() - 1], packet.to_json().render());
    assert!(!buf.windows(2).any(|w| w == *b"\n\n"));
}

#[test]
fn payload_envelope_round_trips() {
    let packet = packet(TYPE_SHARE, json(r#"{ "filename": "a.bin" }"#)).with_payload(42, 1745);
    let decoded = Packet::decode(&packet.to_json().render()).unwrap();
    assert_same(&decoded, &packet);
    assert_eq!(decoded.payload_size(), Some(42));
    assert_eq!(decoded.payload_transfer_port(), Some(1745));
    assert!(decoded.has_payload());

    // Absent fields must round-trip as None (compat with plain packets).
    let plain = Packet::new(&mut PacketIds::new(), TYPE_PING, Json::Null);
    let decoded = Packet::decode(&plain.to_json().render()).unwrap();
    assert_same(&decoded, &plain);
    assert_eq!(decoded.payload_size(), None);
    assert_eq!(decoded.payload_transfer_port(), None);
    assert!(!decoded.has_payload());
}

#[test]
fn zero_size_payload_is_not_a_payload() {
    // A payload size of 0 means "no payload" (empty file).
    let packet = packet(TYPE_SHARE, json(r#"{ "filename": "empty" }"#)).with_payload(0, 1745);
    assert!(!packet.has_payload());
    assert_eq!(packet.payload_size(), Some(0));
}

#[test]
fn port_range_is_upstreams() {
    assert_eq!(PAYLOAD_PORT_MIN, 1739);
    assert_eq!(PAYLOAD_PORT_MAX, 1764);
    assert_eq!(PAYLOAD_CHUNK_SIZE, 4096);
    assert_eq!(CHUNK_SIZE, 64 * 1024);
}

#[test]
fn meta_round_trips() {
    let meta = TransferMeta {
        transfer_id: "t1".into(),
        device_id: "dev".into(),
        file_name: "photo.jpg".into(),
        file_size: 1024,
    };
    let decoded = TransferMeta::from_json(&Json::parse(&meta.to_json().render()).unwrap()).unwrap();
    assert_eq!(decoded, meta);
}

#[test]
fn identity_helper_wraps_identity_body() {
    let sample = sample_identity();
    let packet = Packet::identity(&mut PacketIds::new(), &sample);
    assert_eq!(packet.ptype, TYPE_IDENTITY);
    let decoded = Identity::from_json(&packet.body).unwrap();
    assert_eq!(decoded, sample);
}

#[test]
fn framed_write_read_preserves_order_and_values() {
    let mut ids = PacketIds::new();
    let first = Packet::new(&mut ids, TYPE_PING, json(r#"{ "nonce": 7 }"#));
    let second = Packet::identity(&mut ids, &sample_identity());

    let mut stream = wire(&first);
    stream.extend(wire(&second));

    let found = frames(&stream, stream.len()).unwrap();
    assert_eq!(found.len(), 2);
    let got_first = Packet::decode(&found[0]).unwrap();
    let got_second = Packet::decode(&found[1]).unwrap();

    assert_eq!(got_first.id, first.id);
    assert_eq!(got_first.ptype, TYPE_PING);
    assert_json(&got_first.body, r#"{ "nonce": 7 }"#);
    assert_eq!(got_second.ptype, TYPE_IDENTITY);
    let ident = Identity::from_json(&got_second.body).unwrap();
    assert_eq!(ident, sample_identity());
}

#[test]
fn reads_survive_split_buffers() {
    let mut ids = PacketIds::new();
    let first = Packet::new(&mut ids, TYPE_PING, Json::Null);
    let second = Packet::identity(&mut ids, &sample_identity());

    let mut stream = wire(&first);
    stream.extend(wire(&second));

    let found = frames(&stream, 3).unwrap();
    assert_eq!(found.len(), 2);
    assert_same(&Packet::decode(&found[0]).unwrap(), &first);
    assert_same(&Packet::decode(&found[1]).unwrap(), &second);
}

#[test]
fn oversized_lines_are_rejected() {
    let stream = vec![b'x'; MAX_PACKET_LEN + 1];
    match frames(&stream, 4096) {
        Err(Error::Other(message)) => assert!(
            message.contains("exceeds"),
            "unexpected rejection message: {message}"
        ),
        other => panic!("expected oversized-frame rejection, got: {other:?}"),
    }
}

#[test]
fn lines_exactly_at_max_len_are_accepted() {
    let probe = packet(TYPE_PING, json(r#"{ "pad": "" }"#));
    let base = probe.to_json().render().len();
    let pad = MAX_PACKET_LEN - base;
    let body = Record::new().with("pad", Json::text(&"A".repeat(pad))).done();
    let packet = packet(TYPE_PING, body);
    let stream = wire(&packet);
    assert_eq!(stream.len(), MAX_PACKET_LEN + 1);
    let found = frames(&stream, 4096).unwrap();
    assert_eq!(found.len(), 1);
    assert_same(&Packet::decode(&found[0]).unwrap(), &packet);
}

#[test]
fn too_long_packets_are_not_written() {
    let body = Record::new().with("pad", Json::text(&"A".repeat(MAX_PACKET_LEN))).done();
    let mut buf = BytesMut::new();
    let refused = packet(TYPE_PING, body).encode_into(&mut buf);
    assert!(matches!(refused, Err(Error::Other(ref m)) if m.contains("exceeds")));
    assert!(buf.is_empty());
}

#[test]
fn ends_of_the_stream_are_told_apart() {
    let mut reader = LineReader::new();
    let closed = reader.feed(&[]).unwrap_err().message();
    assert!(closed.contains("closed before a frame"), "{closed}");
    let mut reader = LineReader::new();
    assert!(matches!(reader.feed(b"{\"id\""), Ok(LineStep::More)));
    let cut = reader.feed(&[]).unwrap_err().message();
    assert!(cut.contains("truncated frame"), "{cut}");
}

#[test]
fn legacy_identity_spellings_are_understood() {
    let body = json(
        r#"{"deviceId": "abc", "deviceName": "Pixel 9", "deviceType": "phone",
            "protocolVersion": 8, "incomingCapabilities": ["kdeconnect.ping"],
            "outgoingCapabilities": ["kdeconnect.telephony"], "tcpPort": 17431}"#,
    );
    let ident = Identity::from_json(&body).expect("identity");
    assert_eq!(ident.name, "Pixel 9");
    assert_eq!(ident.protocol_version, PROTO_VERSION);
    assert_eq!(ident.tcp_source_port, 17431);
    assert!(ident.supports_incoming(TYPE_PING));
    assert!(ident.supports_outgoing(TYPE_TELEPHONY));
    assert!(!ident.supports_incoming(TYPE_TELEPHONY));
    assert!(!ident.supports_outgoing(TYPE_FINDMYPHONE));
    assert!(Identity::from_json(&json(r#"{"deviceName": "x"}"#)).is_none());
}

#[test]
fn malformed_payloads_are_decode_errors() {
    assert!(matches!(Packet::decode(b"{"), Err(Error::Json(_))));
    assert!(matches!(Packet::decode(b"{\"id\": 1}"), Err(Error::Json(_))));
}

#[test]
fn generates_persists_and_reloads_identical_material() {
    let (generated, fresh) =
        CertPair::load_or_generate(None, None, "handfast-test-device").unwrap();
    assert!(fresh);

    assert!(!generated.cert_der.is_empty());
    assert!(!generated.key_der_pkcs8.is_empty());
    assert_eq!(
        generated.fingerprint_sha256,
        cert_fingerprint(&generated.cert_der).unwrap()
    );

    let hex = generated.fingerprint_hex();
    assert_eq!(hex.len(), 64);
    assert!(hex.chars().all(|c| matches!(c, '0'..='9' | 'a'..='f')));

    let (reloaded, fresh) = CertPair::load_or_generate(
        Some(generated.cert_der.clone()),
        Some(generated.key_der_pkcs8.clone()),
        "renamed-device",
    )
    .unwrap();
    assert!(!fresh);
    assert_eq!(reloaded, generated);
}

#[test]
fn regenerates_when_stored_files_are_empty() {
    let (pair, fresh) =
        CertPair::load_or_generate(Some(Vec::new()), Some(Vec::new()), "handfast-test-device")
            .unwrap();
    assert!(fresh);
    assert!(!pair.cert_der.is_empty());
    assert!(!pair.key_der_pkcs8.is_empty());
}

#[test]
fn fresh_certificates_carry_the_device_id() {
    for id in ["handfast-test-device", "", "gerät", &"x".repeat(300)] {
        let (pair, fresh) = CertPair::load_or_generate(None, None, id).unwrap();
        assert!(fresh);
        assert_eq!((pair.cert_der[0], pair.key_der_pkcs8[0]), (0x30, 0x30));
        let mark = [0x06, 0x03, 0x55, 0x04, 0x03, 0x0c];
        let at = pair.cert_der.windows(6).position(|w| w == mark).expect("a common name");
        let rest = &pair.cert_der[at + 6..];
        let octets = if id.len() < 128 { 1 } else { 3 };
        assert_eq!(&rest[octets..octets + id.len()], id.as_bytes());
        // The certificate holds the public key that ends the stored key.
        let public = &pair.key_der_pkcs8[pair.key_der_pkcs8.len() - 65..];
        assert_eq!(public[0], 4);
        assert!(pair.cert_der.windows(65).any(|window| window == public));
    }
}

#[test]
fn generation_failures_name_their_step() {
    let text = |step| generation_failure(step, "no entropy").message();
    assert_eq!(
        text(GenerationStep::Key),
        "certificate error: device key generation failed: no entropy"
    );
    assert_eq!(
        text(GenerationStep::Parameters),
        "certificate error: certificate parameters rejected: no entropy"
    );
    assert_eq!(
        text(GenerationStep::Signing),
        "certificate error: certificate self-signing failed: no entropy"
    );
}

#[test]
fn fingerprints_are_sha256() {
    let print = cert_fingerprint(b"abc").unwrap();
    assert_eq!(
        hex(&print),
        "ba7816bf8f01cfea414140de5dae2223b00361a396177a9cb410ff61f20015ad"
    );
    assert_eq!(hex(&[0x00, 0x0f, 0xa0]), "000fa0");
    let name = temp_file_name("id_cert.der", 7, 9);
    assert!(name.contains("id_cert.der"), "{name}");
}

#[test]
fn json_documents_survive_rendering() {
    let text = r#"{"a":[null,true,-3,7,1.5,"q\"\n"],"b":{}}"#;
    let doc = json(text);
    assert_eq!(String::from_utf8(doc.render()).as_deref(), Ok(text));
    let half = Float::from_bits(1.5f64.to_bits()).expect("finite");
    assert_eq!(doc.get("a").and_then(Json::as_array).map(|a| &a[4]), Some(&Json::Float(half)));
    assert!(Float::from_bits(f64::NAN.to_bits()).is_none());
    // The last of two entries with one key counts.
    assert_eq!(json(r#"{"k": 1, "k": 2}"#).u64_member("k"), Some(2));
    assert!(Json::parse(b"[1,").is_err());
}
