use handfast::json::Json;
use handfast::plugins::battery::{
    build_report, read_local_battery, BatteryFactory, BatteryPlugin, BatteryState, Supply,
};
use handfast::plugins::{Plugin, PluginFactory, PluginHost};
use handfast::protocol::{Packet, PacketIds, TYPE_BATTERY, TYPE_BATTERY_REQUEST, TYPE_PING};

/// Parse a JSON document.
fn json(text: &str) -> Json {
    Json::parse(text.as_bytes()).expect("valid JSON")
}

/// A packet with a fresh id.
fn packet(ty: &str, body: Json) -> Packet {
    Packet::new(&mut PacketIds::new(), ty, body)
}

/// Handling with a host of its own.
trait Quick {
    fn quick(&mut self, packet: &Packet) -> Vec<Packet>;
}

impl<P: Plugin> Quick for P {
    fn quick(&mut self, packet: &Packet) -> Vec<Packet> {
        self.handle(packet, &mut PluginHost::new(1_700_000_000_000))
    }
}

/// Both documents say the same, whatever the order of their members.
fn assert_json(found: &Json, expected: &str) {
    assert_eq!(
        String::from_utf8(found.render()),
        String::from_utf8(json(expected).render())
    );
}

/// A member of an object.
fn member<'a>(body: &'a Json, key: &str) -> &'a Json {
    body.get(key).expect("member")
}

/// A reading standing in for a real sysfs battery.
fn probe_present() -> Option<BatteryState> {
    Some(BatteryState {
        level: 73,
        charging: true,
        reported_at: 1_700_000_000_000,
    })
}

#[test]
fn build_report_body_matches_upstream_shape() {
    let report = build_report(&mut PacketIds::new(), 87, true);
    assert_eq!(report.ty(), TYPE_BATTERY);
    assert_json(member(&report.body, "currentCharge"), "87");
    assert_json(member(&report.body, "isCharging"), "true");
    assert_json(member(&report.body, "thresholdEvent"), "0");
}

#[test]
fn build_report_clamps_levels_above_full() {
    assert_json(member(&build_report(&mut PacketIds::new(), 200, false).body, "currentCharge"), "100");
}

#[test]
fn request_replies_with_probed_level_and_charging_flag() {
    let mut plugin = BatteryPlugin::new().with_reader(probe_present());
    let replies = plugin.quick(&packet(TYPE_BATTERY_REQUEST, json(r#"{}"#)));
    assert_eq!(replies.len(), 1);
    assert_eq!(replies[0].ty(), TYPE_BATTERY);
    assert_json(member(&replies[0].body, "currentCharge"), "73");
    assert_json(member(&replies[0].body, "isCharging"), "true");
}

#[test]
fn request_falls_back_when_no_local_battery_is_readable() {
    let mut plugin = BatteryPlugin::new().with_reader(None);
    let replies = plugin.quick(&packet(TYPE_BATTERY_REQUEST, json(r#"{}"#)));
    assert_eq!(replies.len(), 1);
    assert_json(member(&replies[0].body, "currentCharge"), "50");
    assert_json(member(&replies[0].body, "isCharging"), "false");
}

#[test]
fn inbound_report_is_stored_and_exposed() {
    let mut plugin = BatteryPlugin::new();
    assert!(plugin.last_state().is_none());
    let replies = plugin.quick(&packet(
        TYPE_BATTERY,
        json(r#"{"currentCharge": 66, "isCharging": true}"#),
    ));
    assert!(replies.is_empty());
    let state = plugin.last_state().expect("report must be stored");
    assert_eq!(state.level(), 66);
    assert!(state.charging());
}

#[test]
fn malformed_reports_are_ignored_without_panicking() {
    let bodies = vec![
        json(r#"null"#),
        json(r#"{}"#),
        json(r#"{"isCharging": true}"#),
        json(r#"{"currentCharge": null}"#),
        json(r#"{"currentCharge": -5}"#),
        json(r#"{"currentCharge": 42.5}"#),
        json(r#"{"currentCharge": "half"}"#),
        json(r#"{"currentCharge": [50]}"#),
        json(r#"{"currentCharge": {"v": 50}}"#),
        json(r#""not an object""#),
    ];
    let mut plugin = BatteryPlugin::new();
    for body in bodies {
        assert!(plugin.quick(&packet(TYPE_BATTERY, body)).is_empty());
        assert!(plugin.last_state().is_none(), "garbage must not be stored");
    }
}

#[test]
fn reports_beyond_full_are_dropped() {
    let mut plugin = BatteryPlugin::new();
    let report = |charge: u32| {
        packet(TYPE_BATTERY, json(&format!(r#"{{"currentCharge": {charge}, "isCharging": false}}"#)))
    };
    assert!(plugin.quick(&report(150)).is_empty());
    assert!(plugin.last_state().is_none());
    assert!(plugin.quick(&report(101)).is_empty());
    assert!(plugin.last_state().is_none());
    assert!(plugin.quick(&report(100)).is_empty());
    assert_eq!(plugin.last_state().map(|state| state.level()), Some(100));
    assert!(plugin.quick(&report(101)).is_empty());
    assert_eq!(plugin.last_state().map(|state| state.level()), Some(100));
}

#[test]
fn requests_report_what_the_host_read() {
    let mut host = PluginHost::new(7);
    host.battery = probe_present();
    let mut plugin = BatteryPlugin::new();
    let replies = plugin.handle(&packet(TYPE_BATTERY_REQUEST, json("{}")), &mut host);
    assert_json(member(&replies[0].body, "currentCharge"), "73");
    host.battery = None;
    let replies = plugin.handle(&packet(TYPE_BATTERY_REQUEST, json("{}")), &mut host);
    assert_json(member(&replies[0].body, "currentCharge"), "50");
}

#[test]
fn cache_keeps_devices_isolated() {
    let mut host = PluginHost::new(1_700_000_000_000);
    let mut phone = BatteryPlugin::for_device("phone".to_owned());
    let mut tablet = BatteryPlugin::for_device("tablet".to_owned());
    phone.handle(
        &packet(
            TYPE_BATTERY,
            json(r#"{"currentCharge": 20, "isCharging": false}"#),
        ),
        &mut host,
    );
    tablet.handle(
        &packet(
            TYPE_BATTERY,
            json(r#"{"currentCharge": 90, "isCharging": true}"#),
        ),
        &mut host,
    );
    let cache = host.batteries;
    assert_eq!(cache.get("phone").expect("phone state").level(), 20);
    assert_eq!(cache.get("tablet").expect("tablet state").level(), 90);
    assert!(cache.get("laptop").is_none());
}

#[test]
fn foreign_packet_types_change_nothing() {
    let mut plugin = BatteryPlugin::new();
    assert!(plugin.quick(&packet(TYPE_PING, json(r#"{}"#))).is_empty());
    assert!(plugin
        .quick(&packet("kdeconnect.telephony", json(r#"{}"#)))
        .is_empty());
    assert!(plugin.last_state().is_none());
}

#[test]
fn battery_factory_builds_fresh_instances() {
    assert_eq!(BatteryFactory.meta().name, "battery");
    let mut plugin = BatteryFactory.create();
    assert_eq!(plugin.meta().name, "battery");
    assert!(plugin.quick(&packet(TYPE_PING, json(r#"{}"#))).is_empty());
}

#[test]
fn local_batteries_are_picked_by_name() {
    let supply = |name: &str, kind: &str, capacity: &str, status: &str| Supply {
        name: name.to_string(),
        kind: Some(kind.to_string()),
        capacity: Some(capacity.to_string()),
        status: Some(status.to_string()),
    };
    let supplies = vec![
        supply("AC", "Mains", "100", "Full"),
        supply("hid", "Battery", "7\n", "Discharging"),
        supply("BAT1", "Battery\n", "55\n", "Charging\n"),
        supply("BAT0", "Battery", "no number", "Full"),
    ];
    let state = read_local_battery(&supplies, 9).expect("a battery");
    assert_eq!((state.level(), state.charging(), state.reported_at()), (55, true, 9));
    assert!(read_local_battery(&Vec::new(), 9).is_none());
}
