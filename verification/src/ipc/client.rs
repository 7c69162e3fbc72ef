//! The client side of a connection to the daemon.
//!
//! Responses are matched to requests by arrival order; events go to the event
//! feed. Once the connection is dead every outstanding request fails.
use super::codec;
use super::proto;
use super::server;
use super::{Error, Request, Response, ServerEvent, MAX_FRAME_BYTES};
use crate::json;
use crate::json::{Json, JsonView};
use vstd::prelude::*;

verus! {

/// Seconds a request waits for its response.
pub const REQUEST_TIMEOUT: u64 = 10;

/// The message of a request that took too long.
pub const TIMED_OUT: &'static str = "ipc request timed out after 10s";

/// What a frame from the daemon leads to.
#[derive(Debug)]
pub enum Routed {
    /// An event for the event feed.
    Event(ServerEvent),
    /// The response to a request.
    Reply {
        /// The request's ticket.
        ticket: u64,
        /// The response.
        response: Response,
    },
    /// The connection is to be closed, and these requests fail.
    Close(Vec<u64>),
}

/// What a frame leads to.
pub enum RoutedView {
    /// An event for the event feed.
    Event(ServerEvent<Seq<char>>),
    /// The response to a request.
    Reply {
        /// The request's ticket.
        ticket: u64,
        /// The response.
        response: proto::ResponseView,
    },
    /// The connection is to be closed, and these requests fail.
    Close(Seq<u64>),
}

impl View for Routed {
    type V = RoutedView;

    open spec fn view(&self) -> RoutedView {
        match self {
            Routed::Event(event) => RoutedView::Event(event@),
            Routed::Reply { ticket, response } => RoutedView::Reply {
                ticket: *ticket,
                response: response@,
            },
            Routed::Close(tickets) => RoutedView::Close(tickets@),
        }
    }
}

/// What the payload of a frame is.
pub enum PayloadView {
    /// An event.
    Event(ServerEvent<Seq<char>>),
    /// A response.
    Response(proto::ResponseView),
    /// Neither.
    Neither,
}

/// What the payload of a frame is; an event counts before a response.
pub open spec fn payload_view(payload: Seq<u8>) -> PayloadView {
    match json::parsed(payload) {
        Ok(j) => match (proto::event_of(j), proto::response_of(j)) {
            (Some(e), _) => PayloadView::Event(e),
            (None, Some(r)) => PayloadView::Response(r),
            (None, None) => PayloadView::Neither,
        },
        Err(_) => PayloadView::Neither,
    }
}

/// Who waits after a frame, and what it leads to.
pub open spec fn routed(waiting: Seq<u64>, payload: PayloadView) -> (Seq<u64>, RoutedView) {
    match payload {
        PayloadView::Event(e) => (waiting, RoutedView::Event(e)),
        PayloadView::Response(response) => if waiting.len() > 0 {
            (waiting.drop_first(), RoutedView::Reply { ticket: waiting[0], response })
        } else {
            (Seq::empty(), RoutedView::Close(Seq::empty()))
        },
        PayloadView::Neither => (Seq::empty(), RoutedView::Close(waiting)),
    }
}

/// A response goes to the request that waits longest, which then waits no
/// more; an event goes to nobody in particular and answers no request. When
/// the connection ends, every request that waited is told so, and none waits
/// any more: no request is forgotten, and none is answered twice.
pub proof fn law_every_request_is_answered_once(waiting: Seq<u64>, payload: PayloadView)
    ensures
        ({
            let (left, outcome) = routed(waiting, payload);
            &&& payload matches PayloadView::Event(e) ==> outcome == RoutedView::Event(e) && left
                == waiting
            &&& payload matches PayloadView::Response(r) ==> waiting.len() > 0 ==> outcome
                is Reply && outcome->response == r && seq![outcome->ticket] + left == waiting
            &&& outcome is Close ==> outcome->Close_0 == waiting && left.len() == 0
            &&& outcome is Close <==> payload is Neither || (payload is Response && waiting.len()
                == 0)
        }),
{
    if waiting.len() > 0 {
        assert(seq![waiting[0]] + waiting.drop_first() =~= waiting);
    } else {
        assert(waiting =~= Seq::empty());
    }
}

/// What the daemon sends reaches the client as what it is: an event as that
/// event, a response as that response, and noise as neither.
pub proof fn law_payloads_are_told_apart(
    payload: Seq<u8>,
    event: ServerEvent<Seq<char>>,
    response: proto::ResponseView,
)
    ensures
        json::parsed(payload) == Ok::<JsonView, Seq<char>>(proto::event_json(event)) ==> payload_view(
            payload,
        ) == PayloadView::Event(event),
        json::parsed(payload) == Ok::<JsonView, Seq<char>>(proto::response_json(response))
            ==> payload_view(payload) == PayloadView::Response(response),
        json::parsed(payload) is Err ==> payload_view(payload) is Neither,
{
    proto::law_event_round_trip(event);
    proto::law_response_round_trip(response);
    proto::law_responses_are_no_events(response);
}

/// The requests that wait for their responses, in the order in which they
/// were written.
#[derive(Debug)]
pub struct Connection {
    pending: Vec<u64>,
    dead: bool,
}

impl Connection {
    /// The tickets of the requests that wait, oldest first.
    pub closed spec fn waiting(&self) -> Seq<u64> {
        self.pending@
    }

    /// Whether the connection is of no further use.
    pub closed spec fn is_dead(&self) -> bool {
        self.dead
    }

    /// A connection without requests.
    pub fn new() -> (r: Self)
        ensures
            r.waiting() == Seq::<u64>::empty(),
            !r.is_dead(),
    {
        Connection { pending: Vec::new(), dead: false }
    }

    /// A request is about to be written.
    pub fn begin(&mut self, ticket: u64) -> (r: Result<(), Error>)
        ensures
            final(self).is_dead() == old(self).is_dead(),
            if old(self).is_dead() {
                r == Err::<(), Error>(Error::Closed) && final(self).waiting() == old(
                    self,
                ).waiting()
            } else {
                r == Ok::<(), Error>(()) && final(self).waiting() == old(self).waiting().push(
                    ticket,
                )
            },
    {
        if self.dead {
            return Err(Error::Closed);
        }
        self.pending.push(ticket);
        Ok(())
    }

    /// The connection died: every request that waits fails.
    pub fn fail_all_pending(&mut self) -> (r: Vec<u64>)
        ensures
            r@ == old(self).waiting(),
            final(self).waiting() == Seq::<u64>::empty(),
            final(self).is_dead(),
    {
        self.dead = true;
        let mut out: Vec<u64> = Vec::new();
        std::mem::swap(&mut out, &mut self.pending);
        out
    }

    /// A frame came from the daemon. A response that nobody waits for, and a
    /// frame that is neither event nor response, end the connection.
    pub fn on_frame(&mut self, payload: &[u8]) -> (r: Routed)
        ensures
            (final(self).waiting(), r@) == routed(old(self).waiting(), payload_view(payload@)),
            final(self).is_dead() == (old(self).is_dead() || r is Close),
    {
        let document = match codec::decode_payload(payload) {
            Ok(document) => document,
            Err(_) => {
                return Routed::Close(self.fail_all_pending());
            },
        };
        if let Some(event) = ServerEvent::from_json(&document) {
            return Routed::Event(event);
        }
        match Response::from_json(&document) {
            Some(response) => {
                if self.pending.len() == 0 {
                    let none = self.fail_all_pending();
                    assert(none@ =~= Seq::<u64>::empty());
                    return Routed::Close(none);
                }
                let ticket = self.pending.remove(0);
                assert(self.pending@ =~= old(self).waiting().drop_first());
                Routed::Reply { ticket, response }
            },
            None => Routed::Close(self.fail_all_pending()),
        }
    }
}

/// What the daemon answers to requests, in order.
pub open spec fn answered(tickets: Seq<u64>, answers: Seq<proto::ResponseView>) -> Seq<
    (u64, proto::ResponseView),
> {
    Seq::new(
        if tickets.len() < answers.len() {
            tickets.len()
        } else {
            answers.len()
        },
        |i: int| (tickets[i], answers[i]),
    )
}

/// What the frames of responses lead to, one after the other.
pub open spec fn delivered(waiting: Seq<u64>, answers: Seq<proto::ResponseView>) -> Seq<
    (u64, proto::ResponseView),
>
    decreases answers.len(),
{
    if answers.len() == 0 || waiting.len() == 0 {
        Seq::empty()
    } else {
        seq![(waiting[0], answers[0])] + delivered(waiting.drop_first(), answers.drop_first())
    }
}

/// The k-th response goes to the k-th request.
pub proof fn law_responses_keep_the_order(waiting: Seq<u64>, answers: Seq<proto::ResponseView>)
    ensures
        delivered(waiting, answers) == answered(waiting, answers),
    decreases answers.len(),
{
    if answers.len() > 0 && waiting.len() > 0 {
        law_responses_keep_the_order(waiting.drop_first(), answers.drop_first());
        assert(delivered(waiting, answers) =~= answered(waiting, answers));
    } else {
        assert(delivered(waiting, answers) =~= answered(waiting, answers));
    }
}

proof fn lemma_request_fits(m: Request<Seq<char>>)
    ensures
        json::fits(proto::request_json(m), json::max_levels()),
{
    reveal_with_fuel(json::fits, 3);
}

/// The frame of a request. The daemon reads the request back from it.
pub fn encode_request(request: &Request) -> (r: Result<Vec<u8>, Error>)
    ensures
        ({
            let payload = json::rendered(proto::request_json(request@));
            match r {
                Ok(bytes) => {
                    &&& bytes@ == codec::framed(payload)
                    &&& codec::frame_in(bytes@) == (codec::FrameView::Frame {
                        payload,
                        rest: Seq::empty(),
                    })
                    &&& server::request_in(payload) == Ok::<Request<Seq<char>>, Seq<char>>(
                        request@,
                    )
                },
                Err(e) => payload.len() > MAX_FRAME_BYTES && e == (Error::FrameTooLarge {
                    size: payload.len() as usize,
                    max: MAX_FRAME_BYTES,
                }),
            }
        }),
{
    let r = codec::encode_frame(&request.to_json());
    proof {
        let payload = json::rendered(proto::request_json(request@));
        lemma_request_fits(request@);
        if r is Ok {
            server::law_requests_are_served_in_order(request@, payload, Seq::empty());
            assert(codec::framed(payload) + Seq::<u8>::empty() =~= codec::framed(payload));
        }
    }
    r
}

} // verus!
