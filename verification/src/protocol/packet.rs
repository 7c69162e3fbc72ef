//! Newline-delimited JSON packets.
//!
//! Every packet travels as one compact JSON object followed by a single line
//! feed. The object has the members `id`, `type` and `body` and, for
//! transfers, `payloadSize` and `payloadTransferInfo`, which announce a
//! payload streamed over a separate connection.
use super::fields;
use super::identity;
use super::{Error, Identity, MAX_PACKET_LEN, TYPE_IDENTITY};
use crate::buffer;
use crate::json;
use crate::json::{Json, JsonView, Record};
use crate::text;
use bytes::BytesMut;
use vstd::prelude::*;

verus! {

/// Source of packet ids: each id is the successor of the one before.
#[derive(Debug)]
pub struct PacketIds {
    last: i64,
}

impl PacketIds {
    /// The id handed out last; 0 before the first.
    pub closed spec fn latest(&self) -> i64 {
        self.last
    }

    /// A source that has handed out no id yet.
    pub fn new() -> (r: Self)
        ensures
            r.latest() == 0,
    {
        PacketIds { last: 0 }
    }

    /// A source that has handed out `latest` last.
    pub fn after(latest: i64) -> (r: Self)
        ensures
            r.latest() == latest,
    {
        PacketIds { last: latest }
    }

    /// The id handed out last; 0 before the first.
    pub fn last_packet_id(&self) -> (r: i64)
        ensures
            r == self.latest(),
    {
        self.last
    }

    /// Hands out the next id. After the greatest number the ids go on with
    /// the least.
    pub fn next_packet_id(&mut self) -> (r: i64)
        ensures
            r == successor(old(self).latest()),
            final(self).latest() == r,
    {
        if self.last == i64::MAX {
            self.last = i64::MIN;
        } else {
            self.last = self.last + 1;
        }
        self.last
    }
}

/// The id that follows `id`.
pub open spec fn successor(id: i64) -> i64 {
    if id == i64::MAX {
        i64::MIN
    } else {
        (id + 1) as i64
    }
}

/// What is said of a document that is not a packet.
pub const NOT_A_PACKET: &'static str = "the document is not a packet";

/// A single protocol packet.
#[derive(Debug, PartialEq, Eq)]
pub struct Packet {
    /// Packet id unique within a connection; replies may reference it.
    pub id: i64,
    /// Packet type such as `kdeconnect.ping`.
    pub ptype: String,
    /// Type-specific payload; `null` when a plugin sends none.
    pub body: Json,
    /// Announced size of the payload streamed over the data connection. A
    /// negative value means that the size is unknown.
    pub payload_size: Option<i64>,
    /// How to reach the data connection (`{"port": <u16>}`).
    pub payload_transfer_info: Option<Vec<(String, Json)>>,
}

/// What a packet says.
pub struct PacketView {
    /// Packet id.
    pub id: i64,
    /// Packet type.
    pub ptype: Seq<char>,
    /// Type-specific payload.
    pub body: JsonView,
    /// Announced payload size.
    pub payload_size: Option<i64>,
    /// How to reach the data connection.
    pub payload_transfer_info: Option<Map<Seq<char>, JsonView>>,
}

impl View for Packet {
    type V = PacketView;

    open spec fn view(&self) -> PacketView {
        PacketView {
            id: self.id,
            ptype: self.ptype@,
            body: self.body@,
            payload_size: self.payload_size,
            payload_transfer_info: match self.payload_transfer_info {
                Some(info) => Some(json::entries_view(info@)),
                None => None,
            },
        }
    }
}

/// A packet with the given id, type and body that announces no payload.
pub open spec fn plain_packet(id: i64, ptype: Seq<char>, body: JsonView) -> PacketView {
    PacketView { id, ptype, body, payload_size: None, payload_transfer_info: None }
}

/// `m`, with `value` under `key` where there is one.
pub open spec fn with_optional(
    m: Map<Seq<char>, JsonView>,
    key: Seq<char>,
    value: Option<JsonView>,
) -> Map<Seq<char>, JsonView> {
    match value {
        Some(v) => m.insert(key, v),
        None => m,
    }
}

/// The document of a packet.
pub open spec fn packet_json(p: PacketView) -> JsonView {
    let base = Map::<Seq<char>, JsonView>::empty().insert("id"@, JsonView::Int(p.id as int)).insert(
        "type"@,
        JsonView::Str(p.ptype),
    ).insert("body"@, p.body);
    let size = match p.payload_size {
        Some(n) => Some(JsonView::Int(n as int)),
        None => None,
    };
    let info = match p.payload_transfer_info {
        Some(m) => Some(JsonView::Object(m)),
        None => None,
    };
    JsonView::Object(
        with_optional(with_optional(base, "payloadSize"@, size), "payloadTransferInfo"@, info),
    )
}

/// A document that counts as `null` where it is absent.
pub open spec fn any_or_null(f: fields::Field) -> JsonView {
    match f {
        fields::Field::Value(v) => v,
        _ => JsonView::Null,
    }
}

/// An optional signed number; `null` counts as absent.
pub open spec fn optional_int(f: fields::Field) -> Option<Option<i64>> {
    match f {
        fields::Field::Absent => Some(None),
        fields::Field::Value(JsonView::Null) => Some(None),
        fields::Field::Value(v) => match json::as_int(v) {
            Some(n) => Some(Some(n)),
            None => None,
        },
        fields::Field::Twice => None,
    }
}

/// An optional object; `null` counts as absent.
pub open spec fn optional_object(f: fields::Field) -> Option<Option<Map<Seq<char>, JsonView>>> {
    match f {
        fields::Field::Absent => Some(None),
        fields::Field::Value(JsonView::Null) => Some(None),
        fields::Field::Value(JsonView::Object(m)) => Some(Some(m)),
        _ => None,
    }
}

/// The packet that a document stands for, if it does.
pub open spec fn packet_of(j: JsonView) -> Option<PacketView> {
    match (
        fields::required_int(fields::field(j, 0, "id"@, "id"@)),
        fields::required_text(fields::field(j, 1, "type"@, "type"@)),
        optional_int(fields::field(j, 3, "payloadSize"@, "payloadSize"@)),
        optional_object(fields::field(j, 4, "payloadTransferInfo"@, "payloadTransferInfo"@)),
    ) {
        (Some(id), Some(ptype), Some(payload_size), Some(info)) if fields::is_structure(
            j,
            5,
        ) => Some(
            PacketView {
                id,
                ptype,
                body: any_or_null(fields::field(j, 2, "body"@, "body"@)),
                payload_size,
                payload_transfer_info: info,
            },
        ),
        _ => None,
    }
}

/// The packet whose document `bytes` are, if there is one.
pub open spec fn packet_in(bytes: Seq<u8>) -> Option<PacketView> {
    match json::parsed(bytes) {
        Ok(j) => packet_of(j),
        Err(_) => None,
    }
}

/// Whether the announced size counts as a payload to stream.
pub open spec fn announces_payload(size: Option<i64>) -> bool {
    match size {
        Some(n) => n != 0,
        None => false,
    }
}

/// The port that a transfer announcement gives.
pub open spec fn announced_port(info: Option<Map<Seq<char>, JsonView>>) -> Option<u16> {
    match info {
        Some(m) => match json::count_at(JsonView::Object(m), "port"@) {
            Some(n) if n <= 0xffff => Some(n as u16),
            _ => None,
        },
        None => None,
    }
}

impl Clone for Packet {
    fn clone(&self) -> (r: Self)
        ensures
            r@ == self@,
    {
        Packet {
            id: self.id,
            ptype: self.ptype.clone(),
            body: self.body.clone(),
            payload_size: self.payload_size,
            payload_transfer_info: match &self.payload_transfer_info {
                Some(info) => Some(json::clone_entries(info)),
                None => None,
            },
        }
    }
}

impl Packet {
    /// The packet type.
    pub fn ty(&self) -> (r: &str)
        ensures
            r@ == self@.ptype,
    {
        self.ptype.as_str()
    }

    /// Creates a packet with a fresh id.
    pub fn new(ids: &mut PacketIds, ptype: &str, body: Json) -> (r: Self)
        ensures
            r@ == plain_packet(successor(old(ids).latest()), ptype@, body@),
            final(ids).latest() == r.id,
    {
        Packet {
            id: ids.next_packet_id(),
            ptype: ptype.to_owned(),
            body,
            payload_size: None,
            payload_transfer_info: None,
        }
    }

    /// Marks this packet as announcing a payload of `size` bytes streamed over
    /// a data connection listening on local port `port`.
    pub fn with_payload(self, size: i64, port: u16) -> (r: Self)
        ensures
            r@ == (PacketView {
                payload_size: Some(size),
                payload_transfer_info: Some(
                    Map::<Seq<char>, JsonView>::empty().insert("port"@, JsonView::Int(port as int)),
                ),
                ..self@
            }),
    {
        let info = Record::new().with("port", Json::Uint(port as u64)).into_entries();
        Packet {
            id: self.id,
            ptype: self.ptype,
            body: self.body,
            payload_size: Some(size),
            payload_transfer_info: Some(info),
        }
    }

    /// Announced payload size, if this packet carries one (`< 0` = unknown).
    pub fn payload_size(&self) -> (r: Option<i64>)
        ensures
            r == self@.payload_size,
    {
        self.payload_size
    }

    /// Whether this packet announces a payload to stream: a size that is not
    /// zero.
    pub fn has_payload(&self) -> (r: bool)
        ensures
            r == announces_payload(self@.payload_size),
    {
        match self.payload_size {
            Some(size) => size != 0,
            None => false,
        }
    }

    /// Port the peer listens on for the data connection, if announced.
    pub fn payload_transfer_port(&self) -> (r: Option<u16>)
        ensures
            r == announced_port(self@.payload_transfer_info),
    {
        match &self.payload_transfer_info {
            Some(info) => match json::lookup(info, "port") {
                Some(value) => match value.as_u64() {
                    Some(n) => if n <= 0xffff {
                        Some(n as u16)
                    } else {
                        None
                    },
                    None => None,
                },
                None => None,
            },
            None => None,
        }
    }

    /// Wraps an [`Identity`] into an outgoing identity packet.
    pub fn identity(ids: &mut PacketIds, body: &Identity) -> (r: Self)
        ensures
            r@ == plain_packet(
                successor(old(ids).latest()),
                TYPE_IDENTITY@,
                identity::identity_json(body@),
            ),
            final(ids).latest() == r.id,
    {
        Packet::new(ids, TYPE_IDENTITY, body.to_json())
    }

    /// The document of the packet.
    pub fn to_json(&self) -> (r: Json)
        ensures
            r@ == packet_json(self@),
    {
        let mut record = Record::new()
            .with("id", Json::Int(self.id))
            .with("type", Json::text(self.ptype.as_str()))
            .with("body", self.body.clone());
        if let Some(size) = self.payload_size {
            record = record.with("payloadSize", Json::Int(size));
        }
        if let Some(info) = &self.payload_transfer_info {
            record = record.with("payloadTransferInfo", Json::Object(json::clone_entries(info)));
        }
        record.done()
    }

    /// Reads the packet that a document stands for.
    pub fn from_json(j: &Json) -> (r: Option<Packet>)
        ensures
            match r {
                Some(packet) => packet_of(j@) == Some(packet@),
                None => packet_of(j@) is None,
            },
    {
        if !fields::holds_structure(j, 5) {
            return None;
        }
        let id = match fields::find(j, 0, "id", "id").required_int() {
            Some(id) => id,
            None => {
                return None;
            },
        };
        let ptype = match fields::find(j, 1, "type", "type").required_text() {
            Some(ptype) => ptype,
            None => {
                return None;
            },
        };
        let body = match fields::find(j, 2, "body", "body") {
            fields::Found::Value(v) => v.clone(),
            _ => Json::Null,
        };
        let payload_size = match fields::find(j, 3, "payloadSize", "payloadSize") {
            fields::Found::Absent => None,
            fields::Found::Value(Json::Null) => None,
            fields::Found::Value(v) => match v.as_i64() {
                Some(n) => Some(n),
                None => {
                    return None;
                },
            },
            fields::Found::Twice => {
                return None;
            },
        };
        let info = match fields::find(j, 4, "payloadTransferInfo", "payloadTransferInfo") {
            fields::Found::Absent => None,
            fields::Found::Value(Json::Null) => None,
            fields::Found::Value(Json::Object(entries)) => Some(json::clone_entries(entries)),
            _ => {
                return None;
            },
        };
        Some(Packet { id, ptype, body, payload_size, payload_transfer_info: info })
    }

    /// Reads the packet whose document `payload` is.
    pub fn decode(payload: &[u8]) -> (r: Result<Packet, Error>)
        ensures
            match r {
                Ok(packet) => packet_in(payload@) == Some(packet@),
                Err(e) => {
                    &&& packet_in(payload@) is None
                    &&& e matches Error::Json(m) && m@ == match json::parsed(payload@) {
                        Ok(_) => NOT_A_PACKET@,
                        Err(why) => why,
                    }
                },
            },
    {
        match Json::parse(payload) {
            Ok(j) => match Packet::from_json(&j) {
                Some(packet) => Ok(packet),
                None => Err(Error::Json(NOT_A_PACKET.to_owned())),
            },
            Err(message) => Err(Error::Json(message)),
        }
    }

    /// Appends the packet to `buf` as a frame: its compact JSON followed by a
    /// single line feed. A packet of more than [`MAX_PACKET_LEN`] bytes is
    /// refused and leaves `buf` alone.
    ///
    /// The line feed at the end is the only one of the frame, and what stands
    /// before it reads back as this packet.
    pub fn encode_into(&self, buf: &mut BytesMut) -> (r: Result<(), Error>)
        requires
            buffer::content(*old(buf)).len() + MAX_PACKET_LEN < usize::MAX,
        ensures
            match r {
                Ok(()) => {
                    let payload = json::rendered(packet_json(self@));
                    &&& payload.len() <= MAX_PACKET_LEN
                    &&& buffer::content(*final(buf)) == buffer::content(*old(buf))
                        + payload.push(10)
                    &&& !payload.contains(10)
                    &&& payload.len() > 0 && payload[0] == 123
                    &&& json::fits(packet_json(self@), json::max_levels()) ==> packet_in(payload)
                        == Some(self@)
                },
                Err(e) => {
                    &&& json::rendered(packet_json(self@)).len() > MAX_PACKET_LEN
                    &&& buffer::content(*final(buf)) == buffer::content(*old(buf))
                    &&& e is Other
                    &&& e->Other_0@ == oversized_text(json::rendered(packet_json(self@)).len())
                },
            },
    {
        let json = self.to_json().render();
        proof {
            law_packet_round_trip(self@);
        }
        if json.len() > MAX_PACKET_LEN {
            return Err(Error::Other(oversized_message(json.len())));
        }
        buf.extend_from_slice(json.as_slice());
        buffer::put_byte(buf, 10);
        assert(buffer::content(*buf) =~= buffer::content(*old(buf)) + json@.push(10));
        Ok(())
    }
}

/// What is said of a packet of `len` bytes that is too long to send.
pub open spec fn oversized_text(len: nat) -> Seq<char> {
    "packet of "@ + text::decimal(len) + " bytes exceeds MAX_PACKET_LEN ("@ + text::decimal(
        MAX_PACKET_LEN as nat,
    ) + ")"@
}

fn oversized_message(len: usize) -> (r: String)
    ensures
        r@ == oversized_text(len as nat),
{
    "packet of ".to_owned()
        .concat(text::decimal_text(len as u128).as_str())
        .concat(" bytes exceeds MAX_PACKET_LEN (")
        .concat(text::decimal_text(MAX_PACKET_LEN as u128).as_str())
        .concat(")")
}

proof fn lemma_packet_names()
    ensures
        "id"@ != "type"@,
        "id"@ != "body"@,
        "id"@ != "payloadSize"@,
        "id"@ != "payloadTransferInfo"@,
        "type"@ != "body"@,
        "type"@ != "payloadSize"@,
        "type"@ != "payloadTransferInfo"@,
        "body"@ != "payloadSize"@,
        "body"@ != "payloadTransferInfo"@,
        "payloadSize"@ != "payloadTransferInfo"@,
{
    reveal_strlit("id");
    reveal_strlit("type");
    reveal_strlit("body");
    reveal_strlit("payloadSize");
    reveal_strlit("payloadTransferInfo");
    assert("id"@.len() == 2);
    assert("type"@.len() == 4);
    assert("body"@.len() == 4);
    assert("payloadSize"@.len() == 11);
    assert("payloadTransferInfo"@.len() == 19);
    assert("type"@[0] != "body"@[0]);
}

/// Reading the document of a packet gives the packet back.
pub proof fn law_packet_round_trip(p: PacketView)
    ensures
        packet_of(packet_json(p)) == Some(p),
{
    lemma_packet_names();
}

/// The document of a packet without payload nests one level deeper than its
/// body.
pub proof fn lemma_plain_packet_fits(p: PacketView, levels: nat)
    requires
        levels >= 1,
        json::fits(p.body, (levels - 1) as nat),
        p.payload_size is None,
        p.payload_transfer_info is None,
    ensures
        json::fits(packet_json(p), levels),
{
    reveal_with_fuel(json::fits, 2);
}

/// The document of a packet gives each part under its own name; a payload that
/// is not announced is not mentioned.
pub proof fn law_packets_are_written_by_name(p: PacketView)
    ensures
        ({
            let j = packet_json(p);
            &&& json::member(j, "id"@) == Some(JsonView::Int(p.id as int))
            &&& json::text_at(j, "type"@) == Some(p.ptype)
            &&& json::member(j, "body"@) == Some(p.body)
            &&& p.payload_size matches Some(n) ==> json::member(j, "payloadSize"@) == Some(
                JsonView::Int(n as int),
            )
            &&& p.payload_size is None ==> json::member(j, "payloadSize"@) is None
            &&& p.payload_transfer_info matches Some(info) ==> json::member(
                j,
                "payloadTransferInfo"@,
            ) == Some(JsonView::Object(info))
            &&& p.payload_transfer_info is None ==> json::member(j, "payloadTransferInfo"@) is None
        }),
{
    lemma_packet_names();
}

/// A packet announces a payload where it gives a size that is not zero, and a
/// data port where it gives a number that a port can have.
pub proof fn law_payloads_are_announced(size: Option<i64>, info: Map<Seq<char>, JsonView>, n: int)
    ensures
        announces_payload(size) == (size is Some && size->0 != 0),
        announced_port(None) is None,
        info.contains_key("port"@) && info["port"@] == JsonView::Int(n) && 0 <= n <= 65535
            ==> announced_port(Some(info)) == Some(n as u16),
        info.contains_key("port"@) && info["port"@] == JsonView::Int(n) && !(0 <= n <= 65535)
            ==> announced_port(Some(info)) is None,
        !info.contains_key("port"@) ==> announced_port(Some(info)) is None,
{
}

/// Packet ids go up by one, and after the greatest number they go on with the
/// least: no id comes before its own successor again, and different ids have
/// different successors.
pub proof fn law_ids_go_up_by_one(id: i64, other: i64)
    ensures
        id < i64::MAX ==> successor(id) == id + 1,
        successor(i64::MAX) == i64::MIN,
        successor(id) == successor(other) ==> id == other,
{
}

} // verus!
