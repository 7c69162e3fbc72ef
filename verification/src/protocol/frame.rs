//! Incremental reading of newline-terminated frames.
//!
//! A [`LineReader`] takes the bytes of a connection as they arrive and hands
//! out one frame at a time. It never holds more than [`MAX_PACKET_LEN`] bytes,
//! even if a peer floods bytes without ever sending the terminator.
use super::{Error, MAX_PACKET_LEN};
use crate::buffer;
use crate::text;
use bytes::BytesMut;
use vstd::prelude::*;
use vstd::slice::slice_subrange;

verus! {

/// The bytes of a frame whose terminator has not arrived yet.
#[derive(Debug)]
pub struct LineReader {
    line: BytesMut,
}

/// What came of a chunk of input.
#[derive(Debug)]
pub enum LineStep {
    /// A frame is complete, without its line feed. `consumed` bytes of the
    /// chunk belong to it; the others belong to the frames that follow.
    Frame {
        /// The bytes before the line feed.
        payload: BytesMut,
        /// How many bytes of the chunk were used.
        consumed: usize,
    },
    /// The whole chunk was used and the frame goes on.
    More,
}

/// The position of the first line feed of `s`.
pub open spec fn line_end(s: Seq<u8>) -> Option<nat>
    decreases s.len(),
{
    if s.len() == 0 {
        None
    } else if s[0] == 10 {
        Some(0)
    } else {
        match line_end(s.drop_first()) {
            Some(n) => Some(n + 1),
            None => None,
        }
    }
}

/// What comes of a chunk of input.
pub enum Step {
    /// A frame is complete.
    Frame {
        /// The bytes before the line feed.
        payload: Seq<u8>,
        /// What follows the line feed.
        rest: Seq<u8>,
    },
    /// The frame goes on; these are its bytes so far.
    More(Seq<u8>),
    /// The input ended before the frame began.
    Closed,
    /// The input ended in the middle of the frame.
    Truncated,
    /// The terminated frame has this many bytes, which is too long.
    TooLong(nat),
    /// The frame is too long already and has no end in sight.
    Endless,
}

/// What comes of `chunk` after the frame has begun with `pending`. An empty
/// chunk stands for the end of the input.
pub open spec fn step(pending: Seq<u8>, chunk: Seq<u8>) -> Step {
    if chunk.len() == 0 {
        if pending.len() == 0 {
            Step::Closed
        } else {
            Step::Truncated
        }
    } else {
        match line_end(chunk) {
            Some(p) => if pending.len() + p > MAX_PACKET_LEN {
                Step::TooLong((pending.len() + p) as nat)
            } else {
                Step::Frame {
                    payload: pending + chunk.take(p as int),
                    rest: chunk.skip(p as int + 1),
                }
            },
            None => if pending.len() + chunk.len() > MAX_PACKET_LEN {
                Step::Endless
            } else {
                Step::More(pending + chunk)
            },
        }
    }
}

/// What is said of a frame that cannot be read.
pub open spec fn step_error(s: Step) -> Seq<char> {
    match s {
        Step::Closed => "connection closed before a frame"@,
        Step::Truncated => "truncated frame: connection closed mid-line"@,
        Step::TooLong(n) => "framed packet of "@ + text::decimal(n)
            + " bytes exceeds MAX_PACKET_LEN ("@ + text::decimal(MAX_PACKET_LEN as nat) + ")"@,
        _ => "framed packet exceeds MAX_PACKET_LEN ("@ + text::decimal(MAX_PACKET_LEN as nat)
            + ")"@,
    }
}

proof fn lemma_line_end(s: Seq<u8>)
    ensures
        match line_end(s) {
            Some(p) => p < s.len() && s[p as int] == 10 && forall|i: int|
                0 <= i < p ==> s[i] != 10,
            None => forall|i: int| 0 <= i < s.len() ==> s[i] != 10,
        },
    decreases s.len(),
{
    if s.len() > 0 && s[0] != 10 {
        let t = s.drop_first();
        lemma_line_end(t);
        match line_end(t) {
            Some(p) => {
                assert(s[p as int + 1] == t[p as int]);
                assert forall|i: int| 0 <= i < p + 1 implies s[i] != 10 by {
                    if i > 0 {
                        assert(s[i] == t[i - 1]);
                    }
                }
            },
            None => {
                assert forall|i: int| 0 <= i < s.len() implies s[i] != 10 by {
                    if i > 0 {
                        assert(s[i] == t[i - 1]);
                    }
                }
            },
        }
    }
}

/// Finds the first line feed.
fn find_line_end(s: &[u8]) -> (r: Option<usize>)
    ensures
        match r {
            Some(p) => line_end(s@) == Some(p as nat) && p < s@.len(),
            None => line_end(s@) is None,
        },
{
    proof {
        lemma_line_end(s@);
    }
    let mut i: usize = 0;
    while i < s.len()
        invariant
            i <= s@.len(),
            forall|j: int| 0 <= j < i ==> s@[j] != 10,
            match line_end(s@) {
                Some(p) => p < s@.len() && s@[p as int] == 10 && forall|i: int|
                    0 <= i < p ==> s@[i] != 10,
                None => forall|i: int| 0 <= i < s@.len() ==> s@[i] != 10,
            },
        decreases s@.len() - i,
    {
        if s[i] == 10 {
            return Some(i);
        }
        i += 1;
    }
    None
}

impl LineReader {
    /// The bytes of the unfinished frame.
    pub closed spec fn pending(&self) -> Seq<u8> {
        buffer::content(self.line)
    }

    /// The reader holds no more than a frame may have.
    pub open spec fn wf(&self) -> bool {
        self.pending().len() <= MAX_PACKET_LEN
    }

    /// A reader at the start of a frame.
    pub fn new() -> (r: Self)
        ensures
            r.wf(),
            r.pending() == Seq::<u8>::empty(),
    {
        LineReader { line: BytesMut::with_capacity(256) }
    }

    /// Takes the next bytes of the connection; an empty chunk stands for its
    /// end. On an error the connection is of no further use.
    pub fn feed(&mut self, chunk: &[u8]) -> (r: Result<LineStep, Error>)
        requires
            old(self).wf(),
        ensures
            final(self).wf(),
            match (r, step(old(self).pending(), chunk@)) {
                (
                    Ok(LineStep::Frame { payload, consumed }),
                    Step::Frame { payload: expected, rest },
                ) => {
                    &&& buffer::content(payload) == expected
                    &&& consumed <= chunk@.len()
                    &&& chunk@.skip(consumed as int) == rest
                    &&& final(self).pending() == Seq::<u8>::empty()
                },
                (Ok(LineStep::More), Step::More(pending)) => final(self).pending() == pending,
                (Err(Error::Other(message)), Step::Frame { .. }) => false,
                (Err(Error::Other(message)), Step::More(_)) => false,
                (Err(Error::Other(message)), failed) => message@ == step_error(failed),
                _ => false,
            },
    {
        if chunk.len() == 0 {
            let message = if self.line.len() == 0 {
                "connection closed before a frame"
            } else {
                "truncated frame: connection closed mid-line"
            };
            return Err(Error::Other(message.to_owned()));
        }
        match find_line_end(chunk) {
            Some(pos) => {
                let total: u128 = self.line.len() as u128 + pos as u128;
                if total > MAX_PACKET_LEN as u128 {
                    let message = "framed packet of ".to_owned()
                        .concat(text::decimal_text(total).as_str())
                        .concat(" bytes exceeds MAX_PACKET_LEN (")
                        .concat(text::decimal_text(MAX_PACKET_LEN as u128).as_str())
                        .concat(")");
                    return Err(Error::Other(message));
                }
                let mut line = BytesMut::with_capacity(256);
                std::mem::swap(&mut line, &mut self.line);
                line.extend_from_slice(slice_subrange(chunk, 0, pos));
                assert(chunk@.subrange(0, pos as int) =~= chunk@.take(pos as int));
                Ok(LineStep::Frame { payload: line, consumed: pos + 1 })
            },
            None => {
                if chunk.len() > MAX_PACKET_LEN - self.line.len() {
                    let message = "framed packet exceeds MAX_PACKET_LEN (".to_owned()
                        .concat(text::decimal_text(MAX_PACKET_LEN as u128).as_str())
                        .concat(")");
                    return Err(Error::Other(message));
                }
                self.line.extend_from_slice(chunk);
                Ok(LineStep::More)
            },
        }
    }
}

/// What comes of a whole input that arrives in `chunks`, none of them empty.
pub enum Reading {
    /// A frame came, and these chunks remain.
    Frame {
        /// The bytes of the frame.
        payload: Seq<u8>,
        /// What has arrived after it.
        rest: Seq<u8>,
    },
    /// The frame is not complete; these are its bytes so far.
    Waiting(Seq<u8>),
    /// The frame is too long.
    Refused,
}

/// What comes of `chunks`, one after the other, after a frame has begun with
/// `pending`.
pub open spec fn read_chunks(pending: Seq<u8>, chunks: Seq<Seq<u8>>) -> Reading
    decreases chunks.len(),
{
    if chunks.len() == 0 {
        Reading::Waiting(pending)
    } else {
        match step(pending, chunks[0]) {
            Step::Frame { payload, rest } => Reading::Frame {
                payload,
                rest: rest + chunks.drop_first().flatten(),
            },
            Step::More(next) => read_chunks(next, chunks.drop_first()),
            _ => Reading::Refused,
        }
    }
}

/// What comes of `bytes` that arrive at once.
pub open spec fn read_at_once(bytes: Seq<u8>) -> Reading {
    match line_end(bytes) {
        Some(p) => if p > MAX_PACKET_LEN {
            Reading::Refused
        } else {
            Reading::Frame { payload: bytes.take(p as int), rest: bytes.skip(p as int + 1) }
        },
        None => if bytes.len() > MAX_PACKET_LEN {
            Reading::Refused
        } else {
            Reading::Waiting(bytes)
        },
    }
}

proof fn lemma_line_end_is(s: Seq<u8>, p: int)
    requires
        0 <= p < s.len(),
        s[p] == 10,
        forall|i: int| 0 <= i < p ==> s[i] != 10,
    ensures
        line_end(s) == Some(p as nat),
{
    lemma_line_end(s);
    match line_end(s) {
        Some(q) => {
            if q < p {
                assert(s[q as int] != 10);
            }
        },
        None => {
            assert(s[p] != 10);
        },
    }
}

proof fn lemma_chunks(pending: Seq<u8>, chunks: Seq<Seq<u8>>)
    requires
        pending.len() <= MAX_PACKET_LEN,
        forall|i: int| 0 <= i < pending.len() ==> pending[i] != 10,
        forall|i: int| 0 <= i < chunks.len() ==> (#[trigger] chunks[i]).len() > 0,
    ensures
        read_chunks(pending, chunks) == read_at_once(pending + chunks.flatten()),
    decreases chunks.len(),
{
    let all = pending + chunks.flatten();
    lemma_line_end(all);
    if chunks.len() == 0 {
        assert(all =~= pending);
    } else {
        let c = chunks[0];
        let tail = chunks.drop_first();
        lemma_line_end(c);
        assert(chunks.flatten() =~= c + tail.flatten());
        assert(all =~= pending + c + tail.flatten());
        match line_end(c) {
            Some(p) => {
                let q = pending.len() + p;
                assert(all[q as int] == c[p as int]);
                assert forall|i: int| 0 <= i < q implies all[i] != 10 by {
                    if i >= pending.len() {
                        assert(all[i] == c[i - pending.len()]);
                    }
                }
                lemma_line_end_is(all, q as int);
                assert(all.take(q as int) =~= pending + c.take(p as int));
                assert(all.skip(q as int + 1) =~= c.skip(p as int + 1) + tail.flatten());
            },
            None => {
                if pending.len() + c.len() > MAX_PACKET_LEN {
                    match line_end(all) {
                        Some(q) => {
                            if q < pending.len() + c.len() {
                                if q < pending.len() {
                                    assert(all[q as int] == pending[q as int]);
                                } else {
                                    assert(all[q as int] == c[q as int - pending.len()]);
                                }
                            }
                        },
                        None => {},
                    }
                } else {
                    let next = pending + c;
                    assert forall|i: int| 0 <= i < next.len() implies next[i] != 10 by {
                        if i >= pending.len() {
                            assert(next[i] == c[i - pending.len()]);
                        }
                    }
                    assert forall|i: int| 0 <= i < tail.len() implies (#[trigger] tail[i]).len()
                        > 0 by {
                        assert(tail[i] == chunks[i + 1]);
                    }
                    lemma_chunks(next, tail);
                    assert(next + tail.flatten() =~= all);
                }
            },
        }
    }
}

/// However the bytes of a connection are split on the way, the same frames
/// come out of them.
pub proof fn law_frames_survive_split_buffers(chunks: Seq<Seq<u8>>)
    requires
        forall|i: int| 0 <= i < chunks.len() ==> (#[trigger] chunks[i]).len() > 0,
    ensures
        read_chunks(Seq::empty(), chunks) == read_at_once(chunks.flatten()),
{
    lemma_chunks(Seq::empty(), chunks);
    assert(Seq::<u8>::empty() + chunks.flatten() =~= chunks.flatten());
}

/// A frame that was written comes out as it was, whatever follows it and
/// however it is split; what follows is kept for the next frame.
pub proof fn law_written_frame_is_read(payload: Seq<u8>, rest: Seq<u8>, chunks: Seq<Seq<u8>>)
    requires
        payload.len() <= MAX_PACKET_LEN,
        !payload.contains(10),
        forall|i: int| 0 <= i < chunks.len() ==> (#[trigger] chunks[i]).len() > 0,
        chunks.flatten() == payload.push(10) + rest,
    ensures
        read_chunks(Seq::empty(), chunks) == (Reading::Frame { payload, rest }),
{
    law_frames_survive_split_buffers(chunks);
    let all = payload.push(10) + rest;
    assert forall|i: int| 0 <= i < payload.len() implies all[i] != 10 by {
        assert(all[i] == payload[i]);
        assert(payload.contains(payload[i]));
    }
    lemma_line_end_is(all, payload.len() as int);
    assert(all.take(payload.len() as int) =~= payload);
    assert(all.skip(payload.len() as int + 1) =~= rest);
}

/// A line of more than the permitted bytes is refused, however it is split
/// and whether or not it ever ends.
pub proof fn law_oversized_frame_is_refused(chunks: Seq<Seq<u8>>)
    requires
        forall|i: int| 0 <= i < chunks.len() ==> (#[trigger] chunks[i]).len() > 0,
        chunks.flatten().len() > MAX_PACKET_LEN,
        !chunks.flatten().take(MAX_PACKET_LEN as int + 1).contains(10),
    ensures
        read_chunks(Seq::empty(), chunks) == Reading::Refused,
{
    law_frames_survive_split_buffers(chunks);
    let all = chunks.flatten();
    lemma_line_end(all);
    match line_end(all) {
        Some(p) => {
            if p <= MAX_PACKET_LEN {
                assert(all.take(MAX_PACKET_LEN as int + 1)[p as int] == 10);
            }
        },
        None => {},
    }
}

} // verus!
