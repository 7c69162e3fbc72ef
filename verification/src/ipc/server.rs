//! The daemon's side of a connection to a local client.
use super::client;
use super::codec;
use super::codec::FrameReader;
use super::proto;
use super::{peer_is_owner, Error, Request, Response, ServerEvent, IPC_VERSION, MAX_FRAME_BYTES};
use crate::buffer;
use crate::base::APP_NAME;
use crate::json;
use crate::json::{Json, JsonView};
use vstd::prelude::*;

verus! {

/// Milliseconds to pause after a failed accept before retrying.
pub const ACCEPT_RETRY_DELAY: u64 = 100;

/// The first message to a client; it identifies the daemon.
pub fn hello(pid: u32) -> (r: ServerEvent)
    ensures
        r@ == (ServerEvent::Hello { version: IPC_VERSION, app: APP_NAME@, pid }),
{
    ServerEvent::Hello { version: IPC_VERSION, app: APP_NAME.to_owned(), pid }
}

/// The request that the payload of a frame is, or why it is none.
pub open spec fn request_in(payload: Seq<u8>) -> Result<Request<Seq<char>>, Seq<char>> {
    match json::parsed(payload) {
        Ok(j) => match proto::request_of(j) {
            Some(m) => Ok(m),
            None => Err("the document is not a request"@),
        },
        Err(e) => Err(e),
    }
}

/// Reads the request in the payload of a frame; anything else ends the
/// session.
pub fn read_request(payload: &[u8]) -> (r: Result<Request, Error>)
    ensures
        match (r, request_in(payload@)) {
            (Ok(m), Ok(v)) => m@ == v,
            (Err(Error::Json(why)), Err(v)) => why@ == v,
            _ => false,
        },
{
    match codec::decode_payload(payload) {
        Ok(j) => match Request::from_json(&j) {
            Some(m) => Ok(m),
            None => Err(Error::Json("the document is not a request".to_owned())),
        },
        Err(e) => Err(e),
    }
}

/// Anything queued toward one client.
#[derive(Debug)]
pub enum Outbound {
    /// A reply to a specific request.
    Response(Response),
    /// A broadcast event.
    Event(ServerEvent),
}

impl Outbound {
    /// The document that goes to the client.
    pub open spec fn document(&self) -> JsonView {
        match self {
            Outbound::Response(m) => proto::response_json(m@),
            Outbound::Event(m) => proto::event_json(m@),
        }
    }

    /// The document that goes to the client.
    pub fn to_json(&self) -> (r: Json)
        ensures
            r@ == self.document(),
    {
        match self {
            Outbound::Response(m) => m.to_json(),
            Outbound::Event(m) => m.to_json(),
        }
    }

    /// The frame that goes to the client. The client reads the message back
    /// from it; a result has to be one that the reader of documents takes.
    pub fn encode(&self) -> (r: Result<Vec<u8>, Error>)
        ensures
            ({
                let payload = json::rendered(self.document());
                match r {
                    Ok(bytes) => {
                        &&& bytes@ == codec::framed(payload)
                        &&& codec::frame_in(bytes@) == (codec::FrameView::Frame {
                            payload,
                            rest: Seq::empty(),
                        })
                        &&& match self {
                            Outbound::Response(m) => readable(m@) ==> client::payload_view(payload)
                                == client::PayloadView::Response(m@),
                            Outbound::Event(m) => client::payload_view(payload)
                                == client::PayloadView::Event(m@),
                        }
                    },
                    Err(e) => payload.len() > MAX_FRAME_BYTES && e == (Error::FrameTooLarge {
                        size: payload.len() as usize,
                        max: MAX_FRAME_BYTES,
                    }),
                }
            }),
    {
        let r = codec::encode_frame(&self.to_json());
        proof {
            let payload = json::rendered(self.document());
            match self {
                Outbound::Response(m) => {
                    if readable(m@) {
                        lemma_response_fits(m@);
                    }
                    proto::law_response_round_trip(m@);
                    proto::law_responses_are_no_events(m@);
                },
                Outbound::Event(m) => {
                    lemma_event_fits(m@);
                    proto::law_event_round_trip(m@);
                },
            }
            if r is Ok {
                codec::law_framed_payload_is_read_back(payload, Seq::empty());
                assert(codec::framed(payload) + Seq::<u8>::empty() =~= codec::framed(payload));
            }
        }
        r
    }
}

/// Whether the reader of documents takes the result of a response.
pub open spec fn readable(m: proto::ResponseView) -> bool {
    match m {
        proto::ResponseView::Success { result } => json::fits(
            result,
            (json::max_levels() - 1) as nat,
        ),
        proto::ResponseView::Failure { .. } => true,
    }
}

proof fn lemma_response_fits(m: proto::ResponseView)
    requires
        readable(m),
    ensures
        json::fits(proto::response_json(m), json::max_levels()),
{
    reveal_with_fuel(json::fits, 2);
}

proof fn lemma_event_fits(m: ServerEvent<Seq<char>>)
    ensures
        json::fits(proto::event_json(m), json::max_levels()),
{
    reveal_with_fuel(json::fits, 3);
}

/// What a session with a client does next.
#[derive(Debug)]
pub enum SessionStep {
    /// Read more bytes from the client.
    Read,
    /// Handle this request and queue the response to it.
    Serve(Request),
    /// End the session with this failure.
    End(Error),
}

/// A session with one client: its requests are served one by one, in the
/// order in which they came.
#[derive(Debug)]
pub struct ClientSession {
    frames: FrameReader,
}

impl ClientSession {
    /// The bytes that have come and are not served.
    pub closed spec fn pending(&self) -> Seq<u8> {
        self.frames.pending()
    }

    /// Opens a session with the daemon's own user, and nobody else; the
    /// greeting goes to the client before anything else.
    pub fn open(peer_uid: Option<u32>, own_uid: Option<u32>, pid: u32) -> (r: Option<(
        Self,
        ServerEvent,
    )>)
        ensures
            match r {
                Some((session, greeting)) => {
                    &&& super::owned(peer_uid, own_uid)
                    &&& session.pending() == Seq::<u8>::empty()
                    &&& greeting@ == (ServerEvent::Hello {
                        version: IPC_VERSION,
                        app: APP_NAME@,
                        pid,
                    })
                },
                None => !super::owned(peer_uid, own_uid),
            },
    {
        if peer_is_owner(peer_uid, own_uid) {
            Some((ClientSession { frames: FrameReader::new() }, hello(pid)))
        } else {
            None
        }
    }

    /// Takes bytes that came from the client.
    pub fn feed(&mut self, chunk: &[u8])
        requires
            old(self).pending().len() + chunk@.len() <= usize::MAX,
        ensures
            final(self).pending() == old(self).pending() + chunk@,
    {
        self.frames.feed(chunk);
    }

    /// What to do next: a whole frame has to hold a request, and a frame that
    /// declares too much is refused.
    pub fn next(&mut self) -> (r: SessionStep)
        ensures
            match codec::frame_in(old(self).pending()) {
                codec::FrameView::Frame { payload, rest } => {
                    &&& final(self).pending() == rest
                    &&& match (r, request_in(payload)) {
                        (SessionStep::Serve(m), Ok(v)) => m@ == v,
                        (SessionStep::End(Error::Json(why)), Err(v)) => why@ == v,
                        _ => false,
                    }
                },
                codec::FrameView::Partial => r is Read && final(self).pending() == old(
                    self,
                ).pending(),
                codec::FrameView::TooLarge(n) => {
                    &&& final(self).pending() == old(self).pending()
                    &&& r == SessionStep::End(
                        Error::FrameTooLarge { size: n as usize, max: MAX_FRAME_BYTES },
                    )
                },
            },
    {
        match self.frames.next() {
            Ok(Some(payload)) => match read_request(buffer::as_slice(&payload)) {
                Ok(request) => SessionStep::Serve(request),
                Err(e) => SessionStep::End(e),
            },
            Ok(None) => SessionStep::Read,
            Err(e) => SessionStep::End(e),
        }
    }
}

/// A request that a client wrote is what its session serves next, and what
/// follows it stays for later: requests are served in order.
pub proof fn law_requests_are_served_in_order(
    request: Request<Seq<char>>,
    payload: Seq<u8>,
    rest: Seq<u8>,
)
    requires
        payload.len() <= MAX_FRAME_BYTES,
        json::parsed(payload) == Ok::<JsonView, Seq<char>>(proto::request_json(request)),
    ensures
        codec::frame_in(codec::framed(payload) + rest) == (codec::FrameView::Frame {
            payload,
            rest,
        }),
        request_in(payload) == Ok::<Request<Seq<char>>, Seq<char>>(request),
{
    codec::law_framed_payload_is_read_back(payload, rest);
    proto::law_request_round_trip(request);
}

} // verus!
