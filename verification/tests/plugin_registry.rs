use handfast::json::Json;
use handfast::plugins::stubs::{BatteryFactory, StubPlugin, VirtualInputFactory};
use handfast::plugins::{meta, registry, Plugin, PluginFactory, PluginHost, RegisteredFactory};
use handfast::protocol::{Packet, PacketIds, TYPE_PING};
use std::collections::HashSet;

/// Parse a JSON document.
fn json(text: &str) -> Json {
    Json::parse(text.as_bytes()).expect("valid JSON")
}

/// A packet with a fresh id.
fn packet(ty: &str, body: Json) -> Packet {
    Packet::new(&mut PacketIds::new(), ty, body)
}

/// Handling with a host of its own.
trait Quick {
    fn quick(&mut self, packet: &Packet) -> Vec<Packet>;
}

impl<P: Plugin> Quick for P {
    fn quick(&mut self, packet: &Packet) -> Vec<Packet> {
        self.handle(packet, &mut PluginHost::new(1_700_000_000_000))
    }
}

#[test]
fn registry_has_full_roster_in_deterministic_order() {
    let factories = registry();
    assert_eq!(factories.len(), meta::all().len());
    assert!(factories.len() >= 17);
    for (factory, expected) in factories.iter().zip(meta::all().iter()) {
        assert_eq!(factory.meta().name, expected.name);
    }
}

#[test]
fn registry_names_are_unique() {
    let names: HashSet<&str> = registry().iter().map(|f| f.meta().name).collect();
    assert_eq!(names.len(), 17);
}

#[test]
fn every_packet_type_is_kdeconnect_namespaced() {
    for m in meta::all() {
        for ty in m.incoming.iter().chain(m.outgoing.iter()) {
            assert!(
                ty.starts_with("kdeconnect."),
                "{} exposes non-namespaced type {}",
                m.name,
                ty
            );
        }
    }
}

#[test]
fn factories_build_instances_with_matching_meta() {
    for factory in registry() {
        let m = factory.meta();
        let mut plugin = factory.create();
        assert_eq!(plugin.meta().name, m.name);
        let replies = plugin.quick(&packet(TYPE_PING, json(r#"{}"#)));
        if m.name != "ping" {
            assert!(
                replies.is_empty(),
                "stub plugin {} unexpectedly replied",
                m.name
            );
        }
    }
}

fn garbage_bodies() -> Vec<Json> {
    vec![
        json(r#"null"#),
        json(r#"true"#),
        json(r#"false"#),
        json(r#"0"#),
        json(r#"-1"#),
        json(r#"18446744073709551615"#),
        json(r#"-9223372036854775808"#),
        json(r#"1.5"#),
        json(r#""""#),
        json(r#""not an object""#),
        json(r#"[]"#),
        json(r#"["mixed", 1, null]"#),
        json(r#"{}"#),
        json(r#"{"body": null}"#),
        json(r#"{"body": {"nested": {"deep": [true, false, {"k": []}]}}}"#),
        json(r#"{"payload": {"type": 42}}"#),
        json(r#"{"key": "\u0000\n\r\t\""}"#),
    ]
}

#[test]
fn stubs_return_empty_and_never_panic_on_garbage() {
    let bodies = garbage_bodies();
    let roster = meta::all();
    let mut types: Vec<&str> = roster
        .iter()
        .flat_map(|m| m.incoming.iter().copied())
        .collect();
    types.sort_unstable();
    types.dedup();

    for factory in registry() {
        let name = factory.meta().name;
        if name == meta::ping().name {
            continue;
        }
        let mut plugin = factory.create();
        for ty in &types {
            for body in &bodies {
                let replies = plugin.quick(&packet(ty, body.clone()));
                assert!(replies.is_empty(), "stub {} replied to {}", name, ty);
            }
        }
    }
}

#[test]
fn stub_metas_match_bound_constants() {
    assert_eq!(BatteryFactory.meta().name, "battery");
    assert_eq!(VirtualInputFactory.meta().name, "virtual_input");
    let mut p = StubPlugin::new(meta::telephony());
    assert_eq!(p.meta().name, "telephony");
    assert!(
        p.quick(&packet(TYPE_PING, json(r#"null"#))).is_empty(),
        "stub must ignore foreign types too"
    );
}

#[test]
fn sixteen_stub_factories_cover_non_ping_roster() {
    let stubs: Vec<RegisteredFactory> = registry()
        .into_iter()
        .filter(|factory| factory.meta().name != meta::ping().name)
        .collect();
    assert_eq!(stubs.len(), 16);
    let mut names: Vec<&str> = stubs.iter().map(|factory| factory.meta().name).collect();
    names.sort_unstable();
    let before_dedup = names.len();
    names.dedup();
    assert_eq!(names.len(), before_dedup, "roster names must be unique");
    assert!(!names.contains(&meta::ping().name));
}
