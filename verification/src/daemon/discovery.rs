//! Discovery announcements.
//!
//! A discoverable device broadcasts its identity as one JSON datagram every
//! few seconds. A listener learns the sender's address, its port and its
//! capabilities.
use crate::json;
use crate::json::{Json, JsonView};
use crate::protocol::identity;
use crate::protocol::identity::IdentityView;
use crate::protocol::packet;
use crate::protocol::{Identity, Packet, PacketIds, TYPE_IDENTITY};
use crate::text;
use vstd::prelude::*;

verus! {

/// Seconds between announcements of this device.
pub const ANNOUNCE_INTERVAL: u64 = 5;

/// Maximum accepted datagram size in bytes.
pub const MAX_DATAGRAM: usize = 4096;

/// An internet address.
#[derive(Debug, Clone, Copy, PartialEq, Eq, Structural)]
pub enum IpAddress {
    /// IPv4, as a number.
    V4(u32),
    /// IPv6, as a number.
    V6(u128),
}

/// An address and port to connect to.
#[derive(Debug, Clone, Copy, PartialEq, Eq, Structural)]
pub struct Endpoint {
    /// Address.
    pub ip: IpAddress,
    /// Port.
    pub port: u16,
}

/// A device that announced itself.
#[derive(Debug)]
pub struct PeerAnnouncement {
    /// Source address of the announcing peer.
    pub ip: IpAddress,
    /// Identity carried by the datagram.
    pub identity: Identity,
}

/// The identity that the bytes of a datagram give: in a packet, or bare.
pub open spec fn carried(bytes: Seq<u8>) -> Option<IdentityView> {
    match packet::packet_in(bytes) {
        Some(p) if p.ptype == TYPE_IDENTITY@ => identity::identity_of(p.body),
        _ => match json::parsed(bytes) {
            Ok(j) => identity::identity_of(j),
            Err(_) => None,
        },
    }
}

/// The foreign device that a datagram announces, if it does: not this device
/// itself, and one that gives its port.
pub open spec fn announced(bytes: Seq<u8>, self_device_id: Seq<char>) -> Option<IdentityView> {
    if bytes.len() == 0 || bytes.len() > MAX_DATAGRAM {
        None
    } else {
        match carried(bytes) {
            Some(i) if i.device_id != self_device_id && i.tcp_source_port != 0 => Some(i),
            _ => None,
        }
    }
}

/// Reads a datagram.
pub fn parse_datagram(bytes: &[u8], self_device_id: &str) -> (r: Option<Identity>)
    ensures
        match r {
            Some(i) => announced(bytes@, self_device_id@) == Some(i@),
            None => announced(bytes@, self_device_id@) is None,
        },
{
    if bytes.len() == 0 || bytes.len() > MAX_DATAGRAM {
        return None;
    }
    let document = match Json::parse(bytes) {
        Ok(document) => document,
        Err(_) => {
            return None;
        },
    };
    let mut parsed: Option<Identity> = None;
    let mut in_packet = false;
    if let Some(packet) = Packet::from_json(&document) {
        if text::same(packet.ty(), TYPE_IDENTITY) {
            in_packet = true;
            parsed = Identity::from_json(&packet.body);
        }
    }
    if !in_packet {
        parsed = Identity::from_json(&document);
    }
    match parsed {
        Some(i) => if text::same(i.device_id.as_str(), self_device_id) || i.tcp_source_port == 0 {
            None
        } else {
            Some(i)
        },
        None => None,
    }
}

/// The datagram that announces this device. Another device that receives it
/// reads the identity back, where the datagram is not too large and the
/// identity gives a port.
pub fn announcement(ids: &mut PacketIds, identity: &Identity) -> (r: Vec<u8>)
    ensures
        r@ == json::rendered(
            packet::packet_json(
                packet::plain_packet(
                    packet::successor(old(ids).latest()),
                    TYPE_IDENTITY@,
                    identity::identity_json(identity@),
                ),
            ),
        ),
        final(ids).latest() == packet::successor(old(ids).latest()),
        forall|listener: Seq<char>|
            r@.len() <= MAX_DATAGRAM && identity@.tcp_source_port != 0 && identity@.device_id
                != listener ==> #[trigger] announced(r@, listener) == Some(identity@),
{
    let packet = Packet::identity(ids, identity);
    let document = packet.to_json();
    let r = document.render();
    proof {
        identity::law_identity_round_trip(identity@);
        packet::law_packet_round_trip(packet@);
        identity::lemma_identity_fits(identity@, 126);
        packet::lemma_plain_packet_fits(packet@, 127);
    }
    r
}

/// A datagram announces a device where its document is the identity packet of
/// a device, or an identity itself: the device that the identity describes,
/// unless that is this device or it gives no port. A datagram that is empty,
/// too large or no document announces nothing.
pub proof fn law_datagrams_announce_other_devices(
    bytes: Seq<u8>,
    self_device_id: Seq<char>,
    j: JsonView,
)
    requires
        json::parsed(bytes) == Ok::<JsonView, Seq<char>>(j),
    ensures
        ({
            let fits = 0 < bytes.len() <= MAX_DATAGRAM;
            let in_packet = packet::packet_of(j) is Some && packet::packet_of(j)->0.ptype
                == "kdeconnect.identity"@;
            let who = if in_packet {
                identity::identity_of(packet::packet_of(j)->0.body)
            } else {
                identity::identity_of(j)
            };
            &&& announced(bytes, self_device_id) is Some <==> fits && who is Some
                && who->0.device_id != self_device_id && who->0.tcp_source_port != 0
            &&& announced(bytes, self_device_id) is Some ==> announced(bytes, self_device_id) == who
        }),
{
}

/// What is no document announces nothing.
pub proof fn law_noise_announces_nothing(bytes: Seq<u8>, self_device_id: Seq<char>)
    requires
        json::parsed(bytes) is Err || bytes.len() == 0 || bytes.len() > MAX_DATAGRAM,
    ensures
        announced(bytes, self_device_id) is None,
{
}

} // verus!
