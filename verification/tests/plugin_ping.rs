use handfast::json::Json;
use handfast::plugins::{PingFactory, PingPlugin, Plugin, PluginFactory, PluginHost};
use handfast::protocol::{Packet, PacketIds, TYPE_PING};

/// Parse a JSON document.
fn json(text: &str) -> Json {
    Json::parse(text.as_bytes()).expect("valid JSON")
}

/// A packet with a fresh id.
fn packet(ty: &str, body: Json) -> Packet {
    Packet::new(&mut PacketIds::new(), ty, body)
}

/// Handling with a host of its own.
trait Quick {
    fn quick(&mut self, packet: &Packet) -> Vec<Packet>;
}

impl<P: Plugin> Quick for P {
    fn quick(&mut self, packet: &Packet) -> Vec<Packet> {
        self.handle(packet, &mut PluginHost::new(1_700_000_000_000))
    }
}

#[test]
fn replies_exactly_once_and_tracks_time() {
    let mut plugin = PingPlugin::new();
    assert!(plugin.last_ping_at().is_none());
    let pkt = packet(TYPE_PING, json(r#"{}"#));
    let replies = plugin.quick(&pkt);
    assert_eq!(replies.len(), 1);
    assert_eq!(replies[0].ty(), TYPE_PING);
    assert!(plugin.last_ping_at().is_some());
}

#[test]
fn ping_ignores_foreign_packet_types_without_state_change() {
    let mut plugin = PingPlugin::new();
    let pkt = packet("kdeconnect.battery", json(r#"{"level": 50}"#));
    assert!(plugin.quick(&pkt).is_empty());
    let pkt = packet("kdeconnect.mousepad.request", json(r#"{"dx": 1}"#));
    assert!(plugin.quick(&pkt).is_empty());
    assert!(plugin.last_ping_at().is_none());
}

#[test]
fn ping_factory_builds_fresh_instances() {
    let a = PingFactory.create();
    let b = PingFactory.create();
    assert_eq!(a.meta().name, "ping");
    assert_eq!(b.meta().name, "ping");
}
