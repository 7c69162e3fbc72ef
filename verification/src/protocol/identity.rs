//! Device identity advertisement (`kdeconnect.identity`).
//!
//! An [`Identity`] describes a device on the network. It is broadcast during
//! discovery and exchanged again inside the TLS channel right after
//! connecting.
use super::fields;
use crate::json;
use crate::json::{Json, JsonView, Record};
use crate::text;
use vstd::prelude::*;

verus! {

/// Advertisement describing a device.
///
/// Writing always uses the names `deviceId`, `deviceName`, `deviceType`,
/// `protocolVersion`, `incomingCapabilities`, `outgoingCapabilities` and
/// `tcpPort`. Reading also accepts the older spellings `name`,
/// `ProtocolVersion` and `tcpSourcePort`.
#[derive(Debug, PartialEq, Eq)]
pub struct Identity {
    /// Globally unique device identifier.
    pub device_id: String,
    /// Human-readable device name shown to users.
    pub name: String,
    /// Device form factor, such as `"phone"` or `"desktop"`.
    pub device_type: String,
    /// Protocol version; 0 where the peer gives none.
    pub protocol_version: u16,
    /// Packet types this device knows how to receive.
    pub incoming: Vec<String>,
    /// Packet types this device knows how to send.
    pub outgoing: Vec<String>,
    /// TCP port of the device's control listener; 0 when unknown.
    pub tcp_source_port: u16,
}

/// What an identity says.
#[verifier::ext_equal]
pub struct IdentityView {
    /// Globally unique device identifier.
    pub device_id: Seq<char>,
    /// Human-readable device name.
    pub name: Seq<char>,
    /// Device form factor.
    pub device_type: Seq<char>,
    /// Protocol version.
    pub protocol_version: u16,
    /// Packet types this device knows how to receive.
    pub incoming: Seq<Seq<char>>,
    /// Packet types this device knows how to send.
    pub outgoing: Seq<Seq<char>>,
    /// TCP port of the device's control listener.
    pub tcp_source_port: u16,
}

impl View for Identity {
    type V = IdentityView;

    open spec fn view(&self) -> IdentityView {
        IdentityView {
            device_id: self.device_id@,
            name: self.name@,
            device_type: self.device_type@,
            protocol_version: self.protocol_version,
            incoming: text::texts(self.incoming@),
            outgoing: text::texts(self.outgoing@),
            tcp_source_port: self.tcp_source_port,
        }
    }
}

/// A list of strings as a document.
pub open spec fn texts_json(s: Seq<Seq<char>>) -> JsonView {
    JsonView::Array(s.map_values(|t: Seq<char>| JsonView::Str(t)))
}

/// The document that advertises an identity.
pub open spec fn identity_json(i: IdentityView) -> JsonView {
    JsonView::Object(
        Map::<Seq<char>, JsonView>::empty()
            .insert("deviceId"@, JsonView::Str(i.device_id))
            .insert("deviceName"@, JsonView::Str(i.name))
            .insert("deviceType"@, JsonView::Str(i.device_type))
            .insert("protocolVersion"@, JsonView::Int(i.protocol_version as int))
            .insert("incomingCapabilities"@, texts_json(i.incoming))
            .insert("outgoingCapabilities"@, texts_json(i.outgoing))
            .insert("tcpPort"@, JsonView::Int(i.tcp_source_port as int)),
    )
}

/// The identity that a document advertises, if it does.
pub open spec fn identity_of(j: JsonView) -> Option<IdentityView> {
    match (
        fields::required_text(fields::field(j, 0, "deviceId"@, "deviceId"@)),
        fields::required_text(fields::field(j, 1, "deviceName"@, "name"@)),
        fields::required_text(fields::field(j, 2, "deviceType"@, "deviceType"@)),
        fields::short_or_zero(fields::field(j, 3, "protocolVersion"@, "ProtocolVersion"@)),
        fields::texts_or_none(
            fields::field(j, 4, "incomingCapabilities"@, "incomingCapabilities"@),
        ),
        fields::texts_or_none(
            fields::field(j, 5, "outgoingCapabilities"@, "outgoingCapabilities"@),
        ),
        fields::short_or_zero(fields::field(j, 6, "tcpPort"@, "tcpSourcePort"@)),
    ) {
        (
            Some(device_id),
            Some(name),
            Some(device_type),
            Some(protocol_version),
            Some(incoming),
            Some(outgoing),
            Some(tcp_source_port),
        ) if fields::is_structure(j, 7) => Some(
            IdentityView {
                device_id,
                name,
                device_type,
                protocol_version,
                incoming,
                outgoing,
                tcp_source_port,
            },
        ),
        _ => None,
    }
}

/// Whether the texts of `list` include `item`.
fn lists(list: &Vec<String>, item: &str) -> (r: bool)
    ensures
        r == text::texts(list@).contains(item@),
{
    let mut i: usize = 0;
    while i < list.len()
        invariant
            i <= list@.len(),
            forall|j: int| 0 <= j < i ==> #[trigger] text::texts(list@)[j] != item@,
        decreases list@.len() - i,
    {
        if text::same(list[i].as_str(), item) {
            assert(text::texts(list@)[i as int] == item@);
            return true;
        }
        i += 1;
    }
    false
}

/// A copy of a list of strings.
pub fn clone_texts(list: &Vec<String>) -> (r: Vec<String>)
    ensures
        r@ == list@,
{
    let mut out: Vec<String> = Vec::new();
    let mut i: usize = 0;
    while i < list.len()
        invariant
            i <= list@.len(),
            out@ == list@.take(i as int),
        decreases list@.len() - i,
    {
        out.push(list[i].clone());
        i += 1;
    }
    out
}

impl Clone for Identity {
    fn clone(&self) -> (r: Self)
        ensures
            r@ == self@,
    {
        Identity {
            device_id: self.device_id.clone(),
            name: self.name.clone(),
            device_type: self.device_type.clone(),
            protocol_version: self.protocol_version,
            incoming: clone_texts(&self.incoming),
            outgoing: clone_texts(&self.outgoing),
            tcp_source_port: self.tcp_source_port,
        }
    }
}

impl Identity {
    /// Returns `true` when `pkt_type` appears among the packet types that the
    /// device receives. An empty list yields `false` for everything.
    pub fn supports_incoming(&self, pkt_type: &str) -> (r: bool)
        ensures
            r == self@.incoming.contains(pkt_type@),
    {
        lists(&self.incoming, pkt_type)
    }

    /// Returns `true` when `pkt_type` appears among the packet types that the
    /// device sends. An empty list yields `false` for everything.
    pub fn supports_outgoing(&self, pkt_type: &str) -> (r: bool)
        ensures
            r == self@.outgoing.contains(pkt_type@),
    {
        lists(&self.outgoing, pkt_type)
    }

    /// The document that advertises this identity.
    pub fn to_json(&self) -> (r: Json)
        ensures
            r@ == identity_json(self@),
    {
        Record::new()
            .with("deviceId", Json::text(self.device_id.as_str()))
            .with("deviceName", Json::text(self.name.as_str()))
            .with("deviceType", Json::text(self.device_type.as_str()))
            .with("protocolVersion", Json::Uint(self.protocol_version as u64))
            .with("incomingCapabilities", Json::texts(&self.incoming))
            .with("outgoingCapabilities", Json::texts(&self.outgoing))
            .with("tcpPort", Json::Uint(self.tcp_source_port as u64))
            .done()
    }

    /// Reads the identity that a document advertises.
    pub fn from_json(j: &Json) -> (r: Option<Identity>)
        ensures
            match r {
                Some(identity) => identity_of(j@) == Some(identity@),
                None => identity_of(j@) is None,
            },
    {
        if !fields::holds_structure(j, 7) {
            return None;
        }
        let device_id = fields::find(j, 0, "deviceId", "deviceId").required_text();
        let name = fields::find(j, 1, "deviceName", "name").required_text();
        let device_type = fields::find(j, 2, "deviceType", "deviceType").required_text();
        let version = fields::find(j, 3, "protocolVersion", "ProtocolVersion").short_or_zero();
        let incoming = fields::find(
            j,
            4,
            "incomingCapabilities",
            "incomingCapabilities",
        ).texts_or_none();
        let outgoing = fields::find(
            j,
            5,
            "outgoingCapabilities",
            "outgoingCapabilities",
        ).texts_or_none();
        let port = fields::find(j, 6, "tcpPort", "tcpSourcePort").short_or_zero();
        match (device_id, name, device_type, version, incoming, outgoing, port) {
            (
                Some(device_id),
                Some(name),
                Some(device_type),
                Some(protocol_version),
                Some(incoming),
                Some(outgoing),
                Some(tcp_source_port),
            ) => Some(
                Identity {
                    device_id,
                    name,
                    device_type,
                    protocol_version,
                    incoming,
                    outgoing,
                    tcp_source_port,
                },
            ),
            _ => None,
        }
    }
}

proof fn lemma_identity_names()
    ensures
        "deviceId"@ != "deviceName"@,
        "deviceId"@ != "deviceType"@,
        "deviceId"@ != "protocolVersion"@,
        "deviceId"@ != "incomingCapabilities"@,
        "deviceId"@ != "outgoingCapabilities"@,
        "deviceId"@ != "tcpPort"@,
        "deviceId"@ != "name"@,
        "deviceId"@ != "ProtocolVersion"@,
        "deviceId"@ != "tcpSourcePort"@,
        "deviceName"@ != "deviceType"@,
        "deviceName"@ != "protocolVersion"@,
        "deviceName"@ != "incomingCapabilities"@,
        "deviceName"@ != "outgoingCapabilities"@,
        "deviceName"@ != "tcpPort"@,
        "deviceName"@ != "name"@,
        "deviceName"@ != "ProtocolVersion"@,
        "deviceName"@ != "tcpSourcePort"@,
        "deviceType"@ != "protocolVersion"@,
        "deviceType"@ != "incomingCapabilities"@,
        "deviceType"@ != "outgoingCapabilities"@,
        "deviceType"@ != "tcpPort"@,
        "deviceType"@ != "name"@,
        "deviceType"@ != "ProtocolVersion"@,
        "deviceType"@ != "tcpSourcePort"@,
        "protocolVersion"@ != "incomingCapabilities"@,
        "protocolVersion"@ != "outgoingCapabilities"@,
        "protocolVersion"@ != "tcpPort"@,
        "protocolVersion"@ != "name"@,
        "protocolVersion"@ != "ProtocolVersion"@,
        "protocolVersion"@ != "tcpSourcePort"@,
        "incomingCapabilities"@ != "outgoingCapabilities"@,
        "incomingCapabilities"@ != "tcpPort"@,
        "incomingCapabilities"@ != "name"@,
        "incomingCapabilities"@ != "ProtocolVersion"@,
        "incomingCapabilities"@ != "tcpSourcePort"@,
        "outgoingCapabilities"@ != "tcpPort"@,
        "outgoingCapabilities"@ != "name"@,
        "outgoingCapabilities"@ != "ProtocolVersion"@,
        "outgoingCapabilities"@ != "tcpSourcePort"@,
        "tcpPort"@ != "name"@,
        "tcpPort"@ != "ProtocolVersion"@,
        "tcpPort"@ != "tcpSourcePort"@,
        "name"@ != "ProtocolVersion"@,
        "name"@ != "tcpSourcePort"@,
        "ProtocolVersion"@ != "tcpSourcePort"@,
{
    reveal_strlit("deviceId");
    reveal_strlit("deviceName");
    reveal_strlit("deviceType");
    reveal_strlit("protocolVersion");
    reveal_strlit("incomingCapabilities");
    reveal_strlit("outgoingCapabilities");
    reveal_strlit("tcpPort");
    reveal_strlit("name");
    reveal_strlit("ProtocolVersion");
    reveal_strlit("tcpSourcePort");
    assert("deviceId"@.len() == 8);
    assert("deviceName"@.len() == 10);
    assert("deviceType"@.len() == 10);
    assert("protocolVersion"@.len() == 15);
    assert("incomingCapabilities"@.len() == 20);
    assert("outgoingCapabilities"@.len() == 20);
    assert("tcpPort"@.len() == 7);
    assert("name"@.len() == 4);
    assert("ProtocolVersion"@.len() == 15);
    assert("tcpSourcePort"@.len() == 13);
    assert("deviceName"@[6] != "deviceType"@[6]);
    assert("protocolVersion"@[0] != "ProtocolVersion"@[0]);
    assert("incomingCapabilities"@[0] != "outgoingCapabilities"@[0]);
}

/// Reading what was written gives the identity back.
pub proof fn law_identity_round_trip(i: IdentityView)
    ensures
        identity_of(identity_json(i)) == Some(i),
{
    lemma_identity_names();
    let j = identity_json(i);
    let incoming = i.incoming.map_values(|t: Seq<char>| JsonView::Str(t));
    let outgoing = i.outgoing.map_values(|t: Seq<char>| JsonView::Str(t));
    assert(incoming.map_values(|v: JsonView| v->Str_0) =~= i.incoming);
    assert(outgoing.map_values(|v: JsonView| v->Str_0) =~= i.outgoing);
    assert(identity_of(j)->0 =~= i);
}

/// The document that advertises an identity with the older field names.
pub open spec fn legacy_identity_json(i: IdentityView) -> JsonView {
    JsonView::Object(
        Map::<Seq<char>, JsonView>::empty()
            .insert("deviceId"@, JsonView::Str(i.device_id))
            .insert("name"@, JsonView::Str(i.name))
            .insert("deviceType"@, JsonView::Str(i.device_type))
            .insert("ProtocolVersion"@, JsonView::Int(i.protocol_version as int))
            .insert("incomingCapabilities"@, texts_json(i.incoming))
            .insert("outgoingCapabilities"@, texts_json(i.outgoing))
            .insert("tcpSourcePort"@, JsonView::Int(i.tcp_source_port as int)),
    )
}

/// An identity written with the older field names reads the same.
pub proof fn law_legacy_spellings_read_the_same(i: IdentityView)
    ensures
        identity_of(legacy_identity_json(i)) == identity_of(identity_json(i)),
{
    lemma_identity_names();
    law_identity_round_trip(i);
    let j = legacy_identity_json(i);
    let incoming = i.incoming.map_values(|t: Seq<char>| JsonView::Str(t));
    let outgoing = i.outgoing.map_values(|t: Seq<char>| JsonView::Str(t));
    assert(incoming.map_values(|v: JsonView| v->Str_0) =~= i.incoming);
    assert(outgoing.map_values(|v: JsonView| v->Str_0) =~= i.outgoing);
    assert(identity_of(j)->0 =~= i);
}

proof fn lemma_texts_fit(s: Seq<Seq<char>>, levels: nat)
    requires
        levels >= 1,
    ensures
        json::fits(texts_json(s), levels),
{
    reveal_with_fuel(json::fits, 2);
    let items = s.map_values(|t: Seq<char>| JsonView::Str(t));
    assert forall|i: int| 0 <= i < items.len() implies #[trigger] json::fits(
        items[i],
        (levels - 1) as nat,
    ) by {
        assert(items[i] is Str);
    }
}

/// The document of an identity nests two levels deep.
pub proof fn lemma_identity_fits(i: IdentityView, levels: nat)
    requires
        levels >= 2,
    ensures
        json::fits(identity_json(i), levels),
{
    reveal_with_fuel(json::fits, 2);
    lemma_texts_fit(i.incoming, (levels - 1) as nat);
    lemma_texts_fit(i.outgoing, (levels - 1) as nat);
}

/// The document that advertises an identity gives each part under its own
/// name.
pub proof fn law_identities_are_advertised_by_name(i: IdentityView)
    ensures
        ({
            let j = identity_json(i);
            &&& json::text_at(j, "deviceId"@) == Some(i.device_id)
            &&& json::text_at(j, "deviceName"@) == Some(i.name)
            &&& json::text_at(j, "deviceType"@) == Some(i.device_type)
            &&& json::count_at(j, "protocolVersion"@) == Some(i.protocol_version as u64)
            &&& json::count_at(j, "tcpPort"@) == Some(i.tcp_source_port as u64)
            &&& json::list_at(j, "incomingCapabilities"@) matches Some(l) && l.len()
                == i.incoming.len() && forall|k: int|
                0 <= k < l.len() ==> #[trigger] l[k] == JsonView::Str(i.incoming[k])
            &&& json::list_at(j, "outgoingCapabilities"@) matches Some(l) && l.len()
                == i.outgoing.len() && forall|k: int|
                0 <= k < l.len() ==> #[trigger] l[k] == JsonView::Str(i.outgoing[k])
        }),
{
    lemma_identity_names();
}

/// An identity is read from what a document says under each name: without an
/// id, a name or a type there is none, and what a document does not say of
/// versions, ports and capabilities is 0 or empty.
pub proof fn law_identities_are_read_by_name(m: Map<Seq<char>, JsonView>)
    ensures
        ({
            let j = JsonView::Object(m);
            let i = identity_of(j);
            &&& i matches Some(who) ==> json::text_at(j, "deviceId"@) == Some(who.device_id)
                && json::text_at(j, "deviceType"@) == Some(who.device_type)
            &&& i matches Some(who) ==> json::text_at(j, "deviceName"@) == Some(who.name)
                || json::text_at(j, "name"@) == Some(who.name)
            &&& i is Some && !m.contains_key("name"@) ==> json::text_at(j, "deviceName"@) == Some(
                i->0.name,
            )
            &&& i is Some && !m.contains_key("tcpPort"@) && !m.contains_key("tcpSourcePort"@)
                ==> i->0.tcp_source_port == 0
            &&& i is Some && !m.contains_key("protocolVersion"@) && !m.contains_key(
                "ProtocolVersion"@,
            ) ==> i->0.protocol_version == 0
            &&& i is Some && !m.contains_key("incomingCapabilities"@) ==> i->0.incoming.len() == 0
            &&& i is Some && !m.contains_key("outgoingCapabilities"@) ==> i->0.outgoing.len() == 0
            &&& json::text_at(j, "deviceId"@) is None || json::text_at(j, "deviceType"@) is None
                ==> i is None
        }),
{
}

} // verus!
