//! Text messages that a paired phone is asked to send.
use crate::json;
use crate::json::{Json, JsonView, Record};
use crate::protocol::packet;
use crate::protocol::{Packet, PacketIds};
use vstd::prelude::*;

verus! {

/// Packet type that asks a phone to send a text message.
pub const TYPE_SMS_REQUEST: &'static str = "kdeconnect.sms.request";

/// The body of a request to send a text message.
pub open spec fn sms_json(number: Seq<char>, content: Seq<char>) -> JsonView {
    JsonView::Object(
        Map::<Seq<char>, JsonView>::empty()
            .insert("sendSms"@, JsonView::Bool(true))
            .insert("phoneNumber"@, JsonView::Str(number))
            .insert("messageBody"@, JsonView::Str(content)),
    )
}

/// Builds an outbound packet asking the peer to send `content` to `number`.
pub fn send_sms(ids: &mut PacketIds, number: &str, content: &str) -> (r: Packet)
    ensures
        r@ == packet::plain_packet(
            packet::successor(old(ids).latest()),
            TYPE_SMS_REQUEST@,
            sms_json(number@, content@),
        ),
        final(ids).latest() == r.id,
{
    let body = Record::new()
        .with("sendSms", Json::Bool(true))
        .with("phoneNumber", Json::text(number))
        .with("messageBody", Json::text(content))
        .done();
    Packet::new(ids, TYPE_SMS_REQUEST, body)
}

/// The phone is asked to send the message to the number that was given.
pub proof fn law_messages_go_to_their_number(number: Seq<char>, content: Seq<char>)
    ensures
        json::text_at(sms_json(number, content), "phoneNumber"@) == Some(number),
        json::text_at(sms_json(number, content), "messageBody"@) == Some(content),
        json::flag_at(sms_json(number, content), "sendSms"@) == Some(true),
{
    reveal_strlit("sendSms");
    reveal_strlit("phoneNumber");
    reveal_strlit("messageBody");
    assert("sendSms"@.len() == 7);
    assert("phoneNumber"@.len() == 11);
    assert("messageBody"@.len() == 11);
    assert("phoneNumber"@[0] != "messageBody"@[0]);
}

} // verus!
