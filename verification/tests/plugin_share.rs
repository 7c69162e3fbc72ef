use handfast::json::Json;
use handfast::plugins::share::{send_text, send_url, ShareFactory, ShareItem, SharePlugin};
use handfast::plugins::{Plugin, PluginFactory, PluginHost};
use handfast::protocol::{Packet, PacketIds, TYPE_SHARE};

/// Parse a JSON document.
fn json(text: &str) -> Json {
    Json::parse(text.as_bytes()).expect("valid JSON")
}

/// A packet with a fresh id.
fn packet(ty: &str, body: Json) -> Packet {
    Packet::new(&mut PacketIds::new(), ty, body)
}

/// Handling with a host of its own.
trait Quick {
    fn quick(&mut self, packet: &Packet) -> Vec<Packet>;
}

impl<P: Plugin> Quick for P {
    fn quick(&mut self, packet: &Packet) -> Vec<Packet> {
        self.handle(packet, &mut PluginHost::new(1_700_000_000_000))
    }
}

/// Both documents say the same, whatever the order of their members.
fn assert_json(found: &Json, expected: &str) {
    assert_eq!(
        String::from_utf8(found.render()),
        String::from_utf8(json(expected).render())
    );
}

fn handled_body(body: Json) -> Vec<ShareItem> {
    let mut plugin = SharePlugin::new();
    let replies = plugin.quick(&packet(TYPE_SHARE, body));
    assert!(replies.is_empty(), "share handling must not emit replies");
    plugin.take_pending()
}

#[test]
fn url_body_queues_url_share() {
    let items = handled_body(json(r#"{"url": "https://example.com/page?q=1"}"#));
    assert_eq!(
        items,
        vec![ShareItem::Url("https://example.com/page?q=1".to_string())]
    );
}

#[test]
fn text_body_queues_text_share() {
    let items = handled_body(json(r#"{"text": "hello from the phone"}"#));
    assert_eq!(
        items,
        vec![ShareItem::Text("hello from the phone".to_string())]
    );
}

#[test]
fn file_metadata_body_queues_file_meta_and_acknowledges_without_replies() {
    let items = handled_body(json(r#"{"filename": "report.pdf", "fileSize": 123456789}"#));
    assert_eq!(
        items,
        vec![ShareItem::FileMeta {
            name: "report.pdf".to_string(),
            size: 123_456_789,
        }]
    );
}

#[test]
fn url_takes_precedence_over_other_recognized_fields() {
    let items = handled_body(json(r#"{"url": "https://a.example", "text": "t"}"#));
    assert_eq!(items, vec![ShareItem::Url("https://a.example".to_string())]);
    let items = handled_body(json(r#"{ "text": "t", "filename": "f.bin", "fileSize": 1 }"#));
    assert_eq!(items, vec![ShareItem::Text("t".to_string())]);
}

#[test]
fn shares_queue_in_arrival_order_and_drain_exactly_once() {
    let mut plugin = SharePlugin::new();
    plugin.quick(&packet(TYPE_SHARE, json(r#"{"text": "one"}"#)));
    plugin.quick(&packet(TYPE_SHARE, json(r#"{"url": "https://two"}"#)));
    plugin.quick(&packet(
        TYPE_SHARE,
        json(r#"{"filename": "three.bin", "fileSize": 3}"#),
    ));
    assert_eq!(
        plugin.take_pending(),
        vec![
            ShareItem::Text("one".to_string()),
            ShareItem::Url("https://two".to_string()),
            ShareItem::FileMeta {
                name: "three.bin".to_string(),
                size: 3,
            },
        ]
    );
    assert!(plugin.take_pending().is_empty());
}

#[test]
fn malformed_bodies_are_dropped_without_panicking() {
    let bodies = vec![
        json(r#"null"#),
        json(r#"0"#),
        json(r#"-1"#),
        json(r#"1.5"#),
        json(r#""https://not-an-object""#),
        json(r#"[]"#),
        json(r#"{}"#),
        json(r#"{"url": null}"#),
        json(r#"{"url": 42}"#),
        json(r#"{"url": ""}"#),
        json(r#"{"text": ""}"#),
        json(r#"{"text": true}"#),
        json(r#"{"filename": "f.bin"}"#),
        json(r#"{"filename": "", "fileSize": 10}"#),
        json(r#"{"filename": "f.bin", "fileSize": -7}"#),
        json(r#"{"filename": "f.bin", "fileSize": 12.5}"#),
        json(r#"{"filename": "f.bin", "fileSize": "10"}"#),
        json(r#"{"fileSize": 10}"#),
    ];
    let mut plugin = SharePlugin::new();
    for body in bodies {
        let replies = plugin.quick(&packet(TYPE_SHARE, body.clone()));
        assert!(replies.is_empty(), "body {body:?} produced replies");
    }
    assert!(plugin.take_pending().is_empty());
}

#[test]
fn share_ignores_foreign_packet_types_without_state_change() {
    let mut plugin = SharePlugin::new();
    let bodies = [
        json(r#"{"url": "https://x"}"#),
        json(r#"{"text": "x"}"#),
        json(r#"{"filename": "f.bin", "fileSize": 1}"#),
    ];
    for body in bodies {
        assert!(plugin
            .quick(&packet("kdeconnect.ping", body.clone()))
            .is_empty());
        assert!(plugin
            .quick(&packet("kdeconnect.runcommand.request", body))
            .is_empty());
    }
    assert!(plugin.take_pending().is_empty());
}

#[test]
fn send_url_builds_share_packet_with_url_body() {
    let pkt = send_url(&mut PacketIds::new(), "https://example.com/give?a=b");
    assert_eq!(pkt.ty(), TYPE_SHARE);
    assert_json(&pkt.body, r#"{"url": "https://example.com/give?a=b"}"#);
}

#[test]
fn send_text_builds_share_packet_with_text_body() {
    let pkt = send_text(&mut PacketIds::new(), "see attached");
    assert_eq!(pkt.ty(), TYPE_SHARE);
    assert_json(&pkt.body, r#"{"text": "see attached"}"#);
}

#[test]
fn instances_are_independent_and_start_empty() {
    assert!(SharePlugin::default().take_pending().is_empty());
    let a = ShareFactory.create();
    let b = ShareFactory.create();
    assert_eq!(a.meta().name, "share");
    assert_eq!(b.meta().name, "share");
}
