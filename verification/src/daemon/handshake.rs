//! The control-plane handshake.
//!
//! The dialing side first writes one identity packet in plain text; the
//! accepting side reads exactly that line. Both then upgrade to TLS, send
//! their identity again inside the encrypted channel and read the peer's. The
//! accepting side checks that the two identities of its peer agree.
use crate::base::Error;
use crate::buffer;
use crate::json;
use crate::json::Json;
use crate::protocol::identity;
use crate::protocol::identity::IdentityView;
use crate::protocol::packet;
use crate::protocol::packet::PacketView;
use crate::protocol::{Identity, Packet, PacketIds, MAX_PACKET_LEN, TYPE_IDENTITY};
use crate::text;
use bytes::BytesMut;
use vstd::prelude::*;

verus! {

/// Seconds a peer has for each step of the handshake.
pub const HANDSHAKE_TIMEOUT: u64 = 10;

/// The message of a peer that fell silent in its identity line.
pub const LINE_TIMED_OUT: &'static str = "peer never finished its identity line";

/// The message of a connection that closed in the identity line.
pub const LINE_CLOSED: &'static str = "connection closed before the plaintext identity line";

/// The message of a peer that sent something else first.
pub const NOT_PLAINTEXT: &'static str = "peer did not start with a plaintext identity packet";

/// The message of an identity exchange that took too long.
pub const EXCHANGE_TIMED_OUT: &'static str = "identity exchange timed out";

/// The message of an identity without a device id.
pub const NO_DEVICE_ID: &'static str = "peer identity lacks deviceId";

/// The identity that an introducing packet carries, or why it carries none.
pub open spec fn introduced(p: PacketView) -> Result<IdentityView, Seq<char>> {
    if p.ptype != TYPE_IDENTITY@ {
        Err("expected "@ + TYPE_IDENTITY@ + " as first packet, got "@ + p.ptype)
    } else {
        match identity::identity_of(p.body) {
            Some(i) => Ok(i),
            None => Err("malformed identity body: the document is not an identity"@),
        }
    }
}

/// The identity of an introducing packet.
pub fn identity_in(packet: &Packet) -> (r: Result<Identity, Error>)
    ensures
        match (r, introduced(packet@)) {
            (Ok(i), Ok(v)) => i@ == v,
            (Err(Error::Other(m)), Err(why)) => m@ == why,
            _ => false,
        },
{
    if !text::same(packet.ty(), TYPE_IDENTITY) {
        return Err(
            Error::Other(
                "expected ".to_owned().concat(TYPE_IDENTITY).concat(
                    " as first packet, got ",
                ).concat(packet.ty()),
            ),
        );
    }
    match Identity::from_json(&packet.body) {
        Some(i) => Ok(i),
        None => Err(
            Error::Other(
                "malformed identity body: the document is not an identity".to_owned(),
            ),
        ),
    }
}

/// The identity that a line of plain text gives, or why it gives none.
pub open spec fn line_identity(line: Seq<u8>) -> Result<IdentityView, Seq<char>> {
    match json::parsed(line) {
        Err(e) => Err("malformed plaintext identity packet: "@ + e),
        Ok(j) => match packet::packet_of(j) {
            None => Err("malformed plaintext identity packet: the document is not a packet"@),
            Some(p) => introduced(p),
        },
    }
}

/// What a byte of the identity line leads to.
pub enum LineView {
    /// The line goes on; these are its bytes so far.
    More(Seq<u8>),
    /// The line is complete.
    Introduced(IdentityView),
    /// The peer is refused.
    Refused(Seq<char>),
}

/// What the next byte leads to after the bytes `line`.
pub open spec fn line_step(line: Seq<u8>, byte: u8) -> LineView {
    if line.len() == 0 && byte != 123 {
        LineView::Refused(NOT_PLAINTEXT@)
    } else if byte == 10 {
        match line_identity(line) {
            Ok(i) => LineView::Introduced(i),
            Err(why) => LineView::Refused(why),
        }
    } else if line.len() >= MAX_PACKET_LEN {
        LineView::Refused(
            "identity line exceeds MAX_PACKET_LEN ("@ + text::decimal(MAX_PACKET_LEN as nat)
                + ")"@,
        )
    } else {
        LineView::More(line.push(byte))
    }
}

/// Reads one identity line byte by byte, so that no byte of what follows is
/// taken from the connection.
#[derive(Debug)]
pub struct PlaintextReader {
    line: Vec<u8>,
}

impl PlaintextReader {
    /// The bytes of the line so far.
    pub closed spec fn pending(&self) -> Seq<u8> {
        self.line@
    }

    /// A reader at the start of the line.
    pub fn new() -> (r: Self)
        ensures
            r.pending() == Seq::<u8>::empty(),
    {
        PlaintextReader { line: Vec::new() }
    }

    /// Takes the next byte. Returns the identity when the line is complete; on
    /// an error the connection is to be dropped.
    pub fn push(&mut self, byte: u8) -> (r: Result<Option<Identity>, Error>)
        ensures
            match (r, line_step(old(self).pending(), byte)) {
                (Ok(None), LineView::More(next)) => final(self).pending() == next,
                (Ok(Some(i)), LineView::Introduced(v)) => i@ == v,
                (Err(Error::Other(m)), LineView::Refused(why)) => m@ == why,
                _ => false,
            },
            final(self).pending().len() <= old(self).pending().len() + 1,
    {
        if self.line.len() == 0 && byte != 123 {
            return Err(Error::Other(NOT_PLAINTEXT.to_owned()));
        }
        if byte == 10 {
            return match read_line(self.line.as_slice()) {
                Ok(i) => Ok(Some(i)),
                Err(e) => Err(e),
            };
        }
        if self.line.len() >= MAX_PACKET_LEN {
            return Err(
                Error::Other(
                    "identity line exceeds MAX_PACKET_LEN (".to_owned().concat(
                        text::decimal_text(MAX_PACKET_LEN as u128).as_str(),
                    ).concat(")"),
                ),
            );
        }
        self.line.push(byte);
        Ok(None)
    }
}

/// Reads the identity that a line of plain text gives.
pub fn read_line(line: &[u8]) -> (r: Result<Identity, Error>)
    ensures
        match (r, line_identity(line@)) {
            (Ok(i), Ok(v)) => i@ == v,
            (Err(Error::Other(m)), Err(why)) => m@ == why,
            _ => false,
        },
{
    let document = match Json::parse(line) {
        Ok(document) => document,
        Err(e) => {
            return Err(
                Error::Other(
                    "malformed plaintext identity packet: ".to_owned().concat(e.as_str()),
                ),
            );
        },
    };
    match Packet::from_json(&document) {
        Some(packet) => identity_in(&packet),
        None => Err(
            Error::Other(
                "malformed plaintext identity packet: the document is not a packet".to_owned(),
            ),
        ),
    }
}

/// What the bytes of a connection lead to, one after the other, after the
/// bytes `line`. What follows the line is not looked at.
pub open spec fn line_steps(line: Seq<u8>, bytes: Seq<u8>) -> LineView
    decreases bytes.len(),
{
    if bytes.len() == 0 {
        LineView::More(line)
    } else {
        match line_step(line, bytes[0]) {
            LineView::More(next) => line_steps(next, bytes.drop_first()),
            over => over,
        }
    }
}

proof fn lemma_line_goes_on(line: Seq<u8>, part: Seq<u8>, rest: Seq<u8>)
    requires
        !part.contains(10),
        line.len() + part.len() <= MAX_PACKET_LEN,
        (line + part).len() > 0 ==> (line + part)[0] == 123,
    ensures
        line_steps(line, part + rest) == line_steps(line + part, rest),
    decreases part.len(),
{
    if part.len() == 0 {
        assert(line + part =~= line);
        assert(part + rest =~= rest);
    } else {
        let all = part + rest;
        let next = line.push(part[0]);
        assert(part.contains(part[0]));
        assert((line + part)[line.len() as int] == part[0]);
        assert(line_step(line, all[0]) == LineView::More(next));
        assert(all.drop_first() =~= part.drop_first() + rest);
        assert(next + part.drop_first() =~= line + part);
        assert forall|b: u8| part.drop_first().contains(b) implies b != 10 by {
            let i = choose|i: int| 0 <= i < part.drop_first().len() && part.drop_first()[i] == b;
            assert(part[i + 1] == b);
        }
        lemma_line_goes_on(next, part.drop_first(), rest);
    }
}

/// The frame of an identity packet is read as that identity, whatever follows
/// it on the connection.
pub proof fn law_introduction_is_read(
    who: IdentityView,
    id: i64,
    payload: Seq<u8>,
    rest: Seq<u8>,
)
    requires
        payload.len() <= MAX_PACKET_LEN,
        payload.len() > 0 && payload[0] == 123,
        !payload.contains(10),
        packet::packet_in(payload) == Some(
            packet::plain_packet(id, TYPE_IDENTITY@, identity::identity_json(who)),
        ),
    ensures
        line_steps(Seq::empty(), payload.push(10) + rest) == LineView::Introduced(who),
{
    let end = seq![10u8] + rest;
    assert(payload.push(10) + rest =~= payload + end);
    assert(Seq::<u8>::empty() + payload =~= payload);
    lemma_line_goes_on(Seq::empty(), payload, end);
    identity::law_identity_round_trip(who);
    assert(line_identity(payload) == Ok::<IdentityView, Seq<char>>(who));
}

/// The line with which the dialing side introduces itself. The accepting side
/// reads the identity back and leaves what follows on the connection.
pub fn introduction(ids: &mut PacketIds, mine: &Identity) -> (r: Result<BytesMut, Error>)
    ensures
        final(ids).latest() == packet::successor(old(ids).latest()),
        ({
            let payload = json::rendered(
                packet::packet_json(
                    packet::plain_packet(
                        packet::successor(old(ids).latest()),
                        TYPE_IDENTITY@,
                        identity::identity_json(mine@),
                    ),
                ),
            );
            match r {
                Ok(line) => {
                    &&& payload.len() <= MAX_PACKET_LEN
                    &&& buffer::content(line) == payload.push(10)
                    &&& forall|rest: Seq<u8>| #[trigger]
                        line_steps(Seq::empty(), payload.push(10) + rest) == LineView::Introduced(
                            mine@,
                        )
                },
                Err(Error::Other(m)) => payload.len() > MAX_PACKET_LEN && m@
                    == packet::oversized_text(payload.len()),
                _ => false,
            }
        }),
{
    let packet = Packet::identity(ids, mine);
    let mut line = BytesMut::with_capacity(512);
    let outcome = packet.encode_into(&mut line);
    proof {
        let payload = json::rendered(packet::packet_json(packet@));
        if outcome is Ok {
            assert(buffer::content(line) =~= payload.push(10));
            identity::lemma_identity_fits(mine@, 126);
            packet::lemma_plain_packet_fits(packet@, 127);
            assert forall|rest: Seq<u8>| #[trigger]
                line_steps(Seq::empty(), payload.push(10) + rest) == LineView::Introduced(
                    mine@,
                ) by {
                law_introduction_is_read(mine@, packet.id, payload, rest);
            }
        }
    }
    match outcome {
        Ok(()) => Ok(line),
        Err(e) => Err(Error::Other(e.message())),
    }
}

/// The identity that a peer's first packet inside the encrypted channel
/// gives, or why it gives none.
pub open spec fn exchanged(p: PacketView) -> Result<IdentityView, Seq<char>> {
    match introduced(p) {
        Ok(i) => if i.device_id.len() == 0 {
            Err(NO_DEVICE_ID@)
        } else {
            Ok(i)
        },
        Err(why) => Err(why),
    }
}

/// Takes the peer's first packet inside the encrypted channel.
pub fn exchange(packet: &Packet) -> (r: Result<Identity, Error>)
    ensures
        match (r, exchanged(packet@)) {
            (Ok(i), Ok(v)) => i@ == v,
            (Err(Error::Other(m)), Err(why)) => m@ == why,
            _ => false,
        },
{
    match identity_in(packet) {
        Ok(i) => if i.device_id.as_str().is_empty() {
            Err(Error::Other(NO_DEVICE_ID.to_owned()))
        } else {
            Ok(i)
        },
        Err(e) => Err(e),
    }
}

/// Why two identities of one peer do not agree, if they do not.
pub open spec fn disagreement(plain: IdentityView, secure: IdentityView) -> Option<Seq<char>> {
    if plain.device_id != secure.device_id {
        Some(
            "device id changed during handshake: "@ + plain.device_id + " -> "@
                + secure.device_id,
        )
    } else if plain.protocol_version != secure.protocol_version {
        Some(
            "protocol version changed during handshake: "@ + text::decimal(
                plain.protocol_version as nat,
            ) + " -> "@ + text::decimal(secure.protocol_version as nat),
        )
    } else {
        None
    }
}

/// Checks that the identity sent inside the encrypted channel agrees with the
/// one sent in plain text.
pub fn cross_check(plain: &Identity, secure: &Identity) -> (r: Result<(), Error>)
    ensures
        match (r, disagreement(plain@, secure@)) {
            (Ok(()), None) => true,
            (Err(Error::Other(m)), Some(why)) => m@ == why,
            _ => false,
        },
{
    if !text::same(plain.device_id.as_str(), secure.device_id.as_str()) {
        return Err(
            Error::Other(
                "device id changed during handshake: ".to_owned().concat(
                    plain.device_id.as_str(),
                ).concat(" -> ").concat(secure.device_id.as_str()),
            ),
        );
    }
    if plain.protocol_version != secure.protocol_version {
        return Err(
            Error::Other(
                "protocol version changed during handshake: ".to_owned().concat(
                    text::decimal_text(plain.protocol_version as u128).as_str(),
                ).concat(" -> ").concat(
                    text::decimal_text(secure.protocol_version as u128).as_str(),
                ),
            ),
        );
    }
    Ok(())
}

/// The identity that a handshake ends with, or why it fails: the one sent
/// inside the encrypted channel, if it agrees with the one sent in plain text.
pub open spec fn settled(plain: IdentityView, p: PacketView) -> Result<IdentityView, Seq<char>> {
    match exchanged(p) {
        Err(why) => Err(why),
        Ok(secure) => match disagreement(plain, secure) {
            None => Ok(secure),
            Some(why) => Err(why),
        },
    }
}

/// A handshake ends with the identity from inside the encrypted channel,
/// which is of the device that was met in plain text.
pub proof fn law_handshakes_end_with_the_same_device(plain: IdentityView, p: PacketView)
    ensures
        settled(plain, p) is Ok ==> {
            let who = settled(plain, p)->Ok_0;
            &&& identity::identity_of(p.body) == Some(who)
            &&& who.device_id == plain.device_id
            &&& who.protocol_version == plain.protocol_version
            &&& who.device_id.len() > 0
        },
        exchanged(p) is Ok && exchanged(p)->Ok_0.device_id == plain.device_id && exchanged(
            p,
        )->Ok_0.protocol_version == plain.protocol_version ==> settled(plain, p) is Ok,
{
}

/// Takes the peer's first packet inside the encrypted channel on the accepting
/// side, where the peer's plain-text identity is known.
pub fn accept_exchange(plain: &Identity, packet: &Packet) -> (r: Result<Identity, Error>)
    ensures
        match (r, settled(plain@, packet@)) {
            (Ok(i), Ok(who)) => i@ == who,
            (Err(Error::Other(m)), Err(why)) => m@ == why,
            _ => false,
        },
{
    match exchange(packet) {
        Ok(secure) => match cross_check(plain, &secure) {
            Ok(()) => Ok(secure),
            Err(e) => Err(e),
        },
        Err(e) => Err(e),
    }
}

/// Whether the peer that answered a dial is the device that was announced.
pub fn answers_announcement(announced_id: &str, secure: &Identity) -> (r: bool)
    ensures
        r == (secure@.device_id == announced_id@),
{
    text::same(secure.device_id.as_str(), announced_id)
}

/// An identity that passed the handshake names the device and the protocol
/// version that the peer gave in plain text, and is not anonymous.
pub proof fn law_handshake_keeps_the_device(plain: IdentityView, p: PacketView, secure: IdentityView)
    requires
        exchanged(p) == Ok::<IdentityView, Seq<char>>(secure),
        disagreement(plain, secure) is None,
    ensures
        secure.device_id == plain.device_id,
        secure.protocol_version == plain.protocol_version,
        secure.device_id.len() > 0,
{
}

/// Two identities of one peer agree exactly where they name the same device
/// and the same protocol version.
pub proof fn law_identities_agree_on_device_and_version(plain: IdentityView, secure: IdentityView)
    ensures
        disagreement(plain, secure) is None <==> plain.device_id == secure.device_id
            && plain.protocol_version == secure.protocol_version,
{
}

/// An introduction is taken exactly where it is an identity packet with a
/// readable identity and, inside the encrypted channel, a device id; the
/// identity is the one that the packet carries.
pub proof fn law_introductions_are_identities(p: PacketView)
    ensures
        introduced(p) is Ok <==> p.ptype == "kdeconnect.identity"@ && identity::identity_of(
            p.body,
        ) is Some,
        introduced(p) is Ok ==> Some(introduced(p)->Ok_0) == identity::identity_of(p.body),
        exchanged(p) is Ok <==> introduced(p) is Ok && introduced(p)->Ok_0.device_id.len() > 0,
        exchanged(p) is Ok ==> exchanged(p)->Ok_0 == introduced(p)->Ok_0,
{
}

/// A peer that does not begin with a document is refused at its first byte,
/// a line that goes on beyond the greatest length is refused, and until the
/// line ends every byte of it is kept.
pub proof fn law_lines_are_kept_until_they_end(line: Seq<u8>, byte: u8)
    ensures
        line.len() == 0 && byte != 123 ==> line_step(line, byte) is Refused,
        (line.len() > 0 || byte == 123) && byte != 10 && line.len() < 524288 ==> line_step(
            line,
            byte,
        ) == LineView::More(line.push(byte)),
        line.len() >= 524288 && byte != 10 ==> line_step(line, byte) is Refused,
        line.len() > 0 && byte == 10 && line_identity(line) is Ok ==> line_step(line, byte)
            == LineView::Introduced(line_identity(line)->Ok_0),
        line.len() > 0 && byte == 10 && line_identity(line) is Err ==> line_step(line, byte)
            is Refused,
{
}

} // verus!
