//! Length-prefixed JSON frames.
//!
//! A frame is a little-endian `u32` byte count followed by exactly that many
//! bytes of JSON. The declared length is checked before the payload is
//! buffered.
use super::{Error, MAX_FRAME_BYTES};
use crate::buffer;
use crate::json;
use crate::json::Json;
use bytes::BytesMut;
use vstd::prelude::*;

verus! {

/// Number of bytes in the frame length prefix.
pub const LENGTH_PREFIX: usize = 4;

/// The four bytes of a length, the lowest first.
pub open spec fn prefix(len: nat) -> Seq<u8> {
    seq![
        (len % 256) as u8,
        (len / 256 % 256) as u8,
        (len / 65536 % 256) as u8,
        (len / 16777216 % 256) as u8,
    ]
}

/// The length that the first four bytes declare.
pub open spec fn declared(bytes: Seq<u8>) -> nat {
    (bytes[0] + 256 * bytes[1] + 65536 * bytes[2] + 16777216 * bytes[3]) as nat
}

/// What bytes begin with.
pub enum FrameView {
    /// A whole frame, and what follows it.
    Frame {
        /// The payload.
        payload: Seq<u8>,
        /// The bytes behind the frame.
        rest: Seq<u8>,
    },
    /// A part of a frame.
    Partial,
    /// A frame that declares too much.
    TooLarge(nat),
}

/// What `bytes` begin with.
pub open spec fn frame_in(bytes: Seq<u8>) -> FrameView {
    if bytes.len() < LENGTH_PREFIX {
        FrameView::Partial
    } else if declared(bytes) > MAX_FRAME_BYTES {
        FrameView::TooLarge(declared(bytes))
    } else if bytes.len() < LENGTH_PREFIX + declared(bytes) {
        FrameView::Partial
    } else {
        FrameView::Frame {
            payload: bytes.subrange(
                LENGTH_PREFIX as int,
                LENGTH_PREFIX as int + declared(bytes),
            ),
            rest: bytes.skip(LENGTH_PREFIX as int + declared(bytes)),
        }
    }
}

/// A frame reader that keeps the bytes behind the current frame.
#[derive(Debug)]
pub struct FrameReader {
    buf: BytesMut,
}

impl FrameReader {
    /// The bytes that have come and are not handed out.
    pub closed spec fn pending(&self) -> Seq<u8> {
        buffer::content(self.buf)
    }

    /// An empty reader.
    pub fn new() -> (r: Self)
        ensures
            r.pending() == Seq::<u8>::empty(),
    {
        FrameReader { buf: BytesMut::with_capacity(1024) }
    }

    /// Takes bytes that came from the connection.
    pub fn feed(&mut self, chunk: &[u8])
        requires
            old(self).pending().len() + chunk@.len() <= usize::MAX,
        ensures
            final(self).pending() == old(self).pending() + chunk@,
    {
        self.buf.extend_from_slice(chunk);
    }

    /// Hands out the payload of the next frame, if it is complete. A frame
    /// that declares too much is refused.
    pub fn next(&mut self) -> (r: Result<Option<BytesMut>, Error>)
        ensures
            match frame_in(old(self).pending()) {
                FrameView::Frame { payload, rest } => match r {
                    Ok(Some(bytes)) => buffer::content(bytes) == payload && final(self).pending()
                        == rest,
                    _ => false,
                },
                FrameView::Partial => {
                    &&& r == Ok::<Option<BytesMut>, Error>(None)
                    &&& final(self).pending() == old(self).pending()
                },
                FrameView::TooLarge(n) => {
                    &&& r == Err::<Option<BytesMut>, Error>(
                        Error::FrameTooLarge { size: n as usize, max: MAX_FRAME_BYTES },
                    )
                    &&& final(self).pending() == old(self).pending()
                },
            },
    {
        if self.buf.len() < LENGTH_PREFIX {
            return Ok(None);
        }
        let bytes = buffer::as_slice(&self.buf);
        let size: u64 = bytes[0] as u64 + 256 * bytes[1] as u64 + 65536 * bytes[2] as u64
            + 16777216 * bytes[3] as u64;
        if size > MAX_FRAME_BYTES as u64 {
            return Err(Error::FrameTooLarge { size: size as usize, max: MAX_FRAME_BYTES });
        }
        let len: usize = size as usize;
        if self.buf.len() < LENGTH_PREFIX + len {
            return Ok(None);
        }
        let ghost all = self.pending();
        let mut tail = self.buf.split_off(LENGTH_PREFIX);
        let frame = tail.split_to(len);
        self.buf = tail;
        proof {
            assert(buffer::content(frame) =~= all.subrange(
                LENGTH_PREFIX as int,
                LENGTH_PREFIX as int + len,
            ));
            assert(self.pending() =~= all.skip(LENGTH_PREFIX as int + len));
        }
        Ok(Some(frame))
    }
}

/// The frame of a document.
pub open spec fn framed(payload: Seq<u8>) -> Seq<u8> {
    prefix(payload.len()) + payload
}

/// Serializes a document as one frame; a document that is too large is
/// refused.
pub fn encode_frame(document: &Json) -> (r: Result<Vec<u8>, Error>)
    ensures
        match r {
            Ok(bytes) => json::rendered(document@).len() <= MAX_FRAME_BYTES && bytes@ == framed(
                json::rendered(document@),
            ),
            Err(e) => json::rendered(document@).len() > MAX_FRAME_BYTES && e
                == (Error::FrameTooLarge {
                size: json::rendered(document@).len() as usize,
                max: MAX_FRAME_BYTES,
            }),
        },
        json::fits(document@, json::max_levels()) ==> json::parsed(json::rendered(document@)) == Ok::<
            json::JsonView,
            Seq<char>,
        >(document@),
{
    let payload = document.render();
    frame_payload(payload)
}

/// Frames a payload; one that is too large is refused.
pub fn frame_payload(payload: Vec<u8>) -> (r: Result<Vec<u8>, Error>)
    ensures
        match r {
            Ok(bytes) => payload@.len() <= MAX_FRAME_BYTES && bytes@ == framed(payload@),
            Err(e) => payload@.len() > MAX_FRAME_BYTES && e == (Error::FrameTooLarge {
                size: payload@.len() as usize,
                max: MAX_FRAME_BYTES,
            }),
        },
{
    let len = payload.len();
    if len > MAX_FRAME_BYTES {
        return Err(Error::FrameTooLarge { size: len, max: MAX_FRAME_BYTES });
    }
    let mut out: Vec<u8> = Vec::new();
    out.push((len % 256) as u8);
    out.push((len / 256 % 256) as u8);
    out.push((len / 65536 % 256) as u8);
    out.push((len / 16777216 % 256) as u8);
    assert(out@ =~= prefix(payload@.len()));
    let mut rest = payload;
    out.append(&mut rest);
    assert(out@ =~= framed(payload@));
    Ok(out)
}

/// Reads the document in the payload of a frame.
pub fn decode_payload(payload: &[u8]) -> (r: Result<Json, Error>)
    ensures
        match (r, json::parsed(payload@)) {
            (Ok(j), Ok(v)) => j@ == v,
            (Err(Error::Json(m)), Err(e)) => m@ == e,
            _ => false,
        },
{
    match Json::parse(payload) {
        Ok(j) => Ok(j),
        Err(e) => Err(Error::Json(e)),
    }
}

/// A payload that was framed is read back, with whatever follows left in
/// place; so frames that arrive together are queued and none is lost.
pub proof fn law_framed_payload_is_read_back(payload: Seq<u8>, rest: Seq<u8>)
    requires
        payload.len() <= MAX_FRAME_BYTES,
    ensures
        frame_in(framed(payload) + rest) == (FrameView::Frame { payload, rest }),
{
    let bytes = framed(payload) + rest;
    let n = payload.len();
    assert(bytes[0] == (n % 256) as u8);
    assert(bytes[1] == (n / 256 % 256) as u8);
    assert(bytes[2] == (n / 65536 % 256) as u8);
    assert(bytes[3] == (n / 16777216 % 256) as u8);
    assert(n % 256 + 256 * (n / 256 % 256) + 65536 * (n / 65536 % 256) + 16777216 * (n / 16777216
        % 256) == n) by (nonlinear_arith)
        requires
            n <= 16777216,
    ;
    assert(declared(bytes) == n);
    assert(bytes.subrange(4, 4 + n as int) =~= payload);
    assert(bytes.skip(4 + n as int) =~= rest);
}

/// A frame that has come is the same however many bytes come behind it, and
/// so is a refusal.
pub proof fn law_frames_survive_more_bytes(bytes: Seq<u8>, more: Seq<u8>)
    ensures
        match frame_in(bytes) {
            FrameView::Frame { payload, rest } => frame_in(bytes + more) == (FrameView::Frame {
                payload,
                rest: rest + more,
            }),
            FrameView::TooLarge(n) => frame_in(bytes + more) == FrameView::TooLarge(n),
            FrameView::Partial => true,
        },
{
    if bytes.len() >= LENGTH_PREFIX {
        assert(declared(bytes + more) == declared(bytes));
        let n = declared(bytes) as int;
        if bytes.len() >= 4 + n {
            assert((bytes + more).subrange(4, 4 + n) =~= bytes.subrange(4, 4 + n));
            assert((bytes + more).skip(4 + n) =~= bytes.skip(4 + n) + more);
        }
    }
}

/// A frame begins with the length of its payload in four bytes, the lowest
/// one first; the payload follows as it is.
pub proof fn law_frames_begin_with_their_length(payload: Seq<u8>)
    requires
        payload.len() < 0x1_0000_0000,
    ensures
        ({
            let bytes = framed(payload);
            &&& bytes.len() == payload.len() + 4
            &&& bytes.skip(4) == payload
            &&& bytes[0] + 0x100 * bytes[1] + 0x1_0000 * bytes[2] + 0x100_0000 * bytes[3]
                == payload.len()
        }),
{
    let bytes = framed(payload);
    let n = payload.len();
    assert(bytes.skip(4) =~= payload);
    assert(bytes[0] == (n % 256) as u8);
    assert(bytes[1] == (n / 256 % 256) as u8);
    assert(bytes[2] == (n / 65536 % 256) as u8);
    assert(bytes[3] == (n / 16777216 % 256) as u8);
    assert(n % 256 + 256 * (n / 256 % 256) + 65536 * (n / 65536 % 256) + 16777216 * (n / 16777216
        % 256) == n);
}

/// Frames are read in the order in which they were written, and a frame that
/// has not come in full is waited for.
pub proof fn law_frames_are_read_in_order(first: Seq<u8>, second: Seq<u8>, n: int)
    requires
        first.len() <= MAX_FRAME_BYTES,
        second.len() <= MAX_FRAME_BYTES,
        0 <= n < framed(first).len(),
    ensures
        frame_in(framed(first) + framed(second)) == (FrameView::Frame {
            payload: first,
            rest: framed(second),
        }),
        frame_in(framed(first).take(n)) is Partial,
{
    law_framed_payload_is_read_back(first, framed(second));
    law_framed_payload_is_read_back(first, Seq::empty());
    assert(framed(first) + Seq::<u8>::empty() =~= framed(first));
    let part = framed(first).take(n);
    if n >= 4 {
        assert(declared(part) == declared(framed(first)));
    }
}

} // verus!
