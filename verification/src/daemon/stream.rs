//! The two directions of a payload stream.
//!
//! A [`Receipt`] and an [`OutgoingStream`] decide; who runs them reads, writes
//! and moves the bytes, and reports how that went.
use super::backends;
use super::backends::SaveTarget;
use crate::base::bus::Event;
use crate::base::Error;
use crate::protocol::transfer::{CHUNK_SIZE, PAYLOAD_CHUNK_SIZE, UNKNOWN_SIZE};
use vstd::prelude::*;

verus! {

/// The message of a stream that the user cancelled.
pub const CANCELLED: &'static str = "transfer cancelled";

/// The message of a stream whose sender fell silent.
pub const READ_TIMED_OUT: &'static str = "payload read timed out";

/// The message of a file that ended before its announced size.
pub const SOURCE_ENDED: &'static str = "file ended before its announced size";

/// The message of a stream whose data connection a stranger dialed.
pub const STRANGER: &'static str = "peer certificate is not the pinned one";

/// What the receiving side does next.
#[derive(Debug)]
pub enum ReceiveStep {
    /// Read what comes, at most this many bytes.
    ReadSome(usize),
    /// Read exactly this many bytes.
    ReadExactly(usize),
    /// Append the bytes that were read, this many, to the staging file.
    Append(usize),
    /// The stream was cancelled: remove the staging file; the transfer failed
    /// with [`CANCELLED`].
    Abort,
    /// Every byte has come: move the staging file to its final name.
    Finish,
    /// Copy the finished file into a destination that is not local.
    Deliver {
        /// Finished file.
        local: String,
        /// Destination.
        uri: String,
    },
    /// The copy failed: remove the finished file; the transfer failed.
    Discard {
        /// Finished file.
        local: String,
        /// Why the copy failed.
        error: Error,
    },
    /// The file is in its place; publish the event.
    Received(Event),
    /// The transfer failed.
    Failed(Error),
}

/// What a [`ReceiveStep`] says.
pub enum ReceiveView {
    /// Read at most this many bytes.
    ReadSome(usize),
    /// Read exactly this many bytes.
    ReadExactly(usize),
    /// Append this many bytes.
    Append(usize),
    /// Remove the staging file.
    Abort,
    /// Move the staging file.
    Finish,
    /// Copy the finished file.
    Deliver {
        /// Finished file.
        local: Seq<char>,
        /// Destination.
        uri: Seq<char>,
    },
    /// Remove the finished file.
    Discard {
        /// Finished file.
        local: Seq<char>,
        /// Why the copy failed.
        error: Seq<char>,
    },
    /// Publish the event.
    Received(Event<Seq<char>>),
    /// The transfer failed.
    Failed(Seq<char>),
}

impl View for ReceiveStep {
    type V = ReceiveView;

    open spec fn view(&self) -> ReceiveView {
        match self {
            ReceiveStep::ReadSome(n) => ReceiveView::ReadSome(*n),
            ReceiveStep::ReadExactly(n) => ReceiveView::ReadExactly(*n),
            ReceiveStep::Append(n) => ReceiveView::Append(*n),
            ReceiveStep::Abort => ReceiveView::Abort,
            ReceiveStep::Finish => ReceiveView::Finish,
            ReceiveStep::Deliver { local, uri } => ReceiveView::Deliver {
                local: local@,
                uri: uri@,
            },
            ReceiveStep::Discard { local, error } => ReceiveView::Discard {
                local: local@,
                error: error.text(),
            },
            ReceiveStep::Received(event) => ReceiveView::Received(event@),
            ReceiveStep::Failed(error) => ReceiveView::Failed(error.text()),
        }
    }
}

/// How a read from the data connection went.
#[derive(Debug)]
pub enum ReadOutcome {
    /// This many bytes came; none at the end of the stream.
    Got(usize),
    /// Nothing came in time.
    TimedOut,
    /// The connection failed.
    Failed(Error),
}

/// What follows with `done` of `size` bytes received. What is cancelled is
/// aborted; a stream without an announced size goes on until it ends.
pub open spec fn receive_step(cancelled: bool, size: u64, done: u64) -> ReceiveView {
    if cancelled {
        ReceiveView::Abort
    } else if size == UNKNOWN_SIZE {
        ReceiveView::ReadSome(CHUNK_SIZE)
    } else if size <= done {
        ReceiveView::Finish
    } else if size - done < CHUNK_SIZE {
        ReceiveView::ReadExactly((size - done) as usize)
    } else {
        ReceiveView::ReadExactly(CHUNK_SIZE)
    }
}

/// What follows the attempt to reserve the staging file.
pub open spec fn after_start(
    receipt: ReceiptView,
    outcome: Result<(), Error>,
    cancelled: bool,
) -> ReceiveView {
    match outcome {
        Err(e) => ReceiveView::Failed(e.text()),
        Ok(()) => if receipt.has_payload {
            receive_step(cancelled, receipt.size, receipt.done)
        } else {
            ReceiveView::Finish
        },
    }
}

/// What follows a read.
pub open spec fn after_read(receipt: ReceiptView, outcome: ReadOutcome) -> ReceiveView {
    match outcome {
        ReadOutcome::Got(n) => if n == 0 && receipt.size == UNKNOWN_SIZE {
            ReceiveView::Finish
        } else {
            ReceiveView::Append(n)
        },
        ReadOutcome::TimedOut => ReceiveView::Failed(READ_TIMED_OUT@),
        ReadOutcome::Failed(e) => ReceiveView::Failed(e.text()),
    }
}

/// What follows the attempt to append a chunk, after which the staging file
/// holds `done` bytes. A stream that has every announced byte is not asked
/// whether it was cancelled.
pub open spec fn after_append(
    size: u64,
    outcome: Result<u64, Error>,
    cancelled: bool,
) -> ReceiveView {
    match outcome {
        Err(e) => ReceiveView::Failed(e.text()),
        Ok(done) => if size != UNKNOWN_SIZE && done >= size {
            ReceiveView::Finish
        } else {
            receive_step(cancelled, size, done)
        },
    }
}

/// What follows the attempt to move the staging file to its final name.
pub open spec fn after_finish(receipt: ReceiptView, outcome: Result<String, Error>) -> ReceiveView {
    match outcome {
        Err(e) => ReceiveView::Failed(e.text()),
        Ok(path) => match receipt.target {
            SaveTarget::Uri(uri) => ReceiveView::Deliver { local: path@, uri },
            SaveTarget::Local(_) => ReceiveView::Received(received_event(receipt, path@)),
        },
    }
}

/// What follows the attempt to copy the finished file to its destination.
pub open spec fn after_delivery(
    receipt: ReceiptView,
    local: Seq<char>,
    outcome: Result<(), Error>,
) -> ReceiveView {
    match outcome {
        Err(e) => ReceiveView::Discard { local, error: e.text() },
        Ok(()) => ReceiveView::Received(received_event(receipt, local)),
    }
}

/// The progress of a transfer.
pub open spec fn progress(id: Seq<char>, done: u64, size: u64) -> Event<Seq<char>> {
    Event::TransferProgress { id, bytes_done: done, bytes_total: size }
}

/// A file that is being received.
#[derive(Debug)]
pub struct Receipt {
    transfer_id: String,
    device_id: String,
    file_name: String,
    size: u64,
    has_payload: bool,
    target: SaveTarget,
    done: u64,
}

/// What is known of a file that is being received.
pub struct ReceiptView {
    /// Transfer.
    pub transfer_id: Seq<char>,
    /// Device that sends the file.
    pub device_id: Seq<char>,
    /// Name that the sender gave.
    pub file_name: Seq<char>,
    /// Announced size.
    pub size: u64,
    /// Whether bytes come over a data connection; an empty file has none.
    pub has_payload: bool,
    /// Where the file goes.
    pub target: SaveTarget<Seq<char>>,
    /// Bytes received so far.
    pub done: u64,
}

impl View for Receipt {
    type V = ReceiptView;

    closed spec fn view(&self) -> ReceiptView {
        ReceiptView {
            transfer_id: self.transfer_id@,
            device_id: self.device_id@,
            file_name: self.file_name@,
            size: self.size,
            has_payload: self.has_payload,
            target: self.target@,
            done: self.done,
        }
    }
}

impl Receipt {
    /// A file of which nothing has been received.
    pub fn new(
        transfer_id: String,
        device_id: String,
        file_name: String,
        size: u64,
        has_payload: bool,
        target: SaveTarget,
    ) -> (r: Self)
        ensures
            r@ == (ReceiptView {
                transfer_id: transfer_id@,
                device_id: device_id@,
                file_name: file_name@,
                size,
                has_payload,
                target: target@,
                done: 0,
            }),
    {
        Receipt { transfer_id, device_id, file_name, size, has_payload, target, done: 0 }
    }

    fn next(&self, cancelled: bool) -> (r: ReceiveStep)
        ensures
            r@ == receive_step(cancelled, self@.size, self@.done),
    {
        if cancelled {
            return ReceiveStep::Abort;
        }
        if self.size == UNKNOWN_SIZE {
            return ReceiveStep::ReadSome(CHUNK_SIZE);
        }
        if self.size <= self.done {
            return ReceiveStep::Finish;
        }
        let remaining: u64 = self.size - self.done;
        if remaining < CHUNK_SIZE as u64 {
            ReceiveStep::ReadExactly(remaining as usize)
        } else {
            ReceiveStep::ReadExactly(CHUNK_SIZE)
        }
    }

    /// The staging file was reserved, or could not be.
    pub fn started(&self, outcome: Result<(), Error>, cancelled: bool) -> (r: ReceiveStep)
        ensures
            r@ == after_start(self@, outcome, cancelled),
    {
        match outcome {
            Err(e) => ReceiveStep::Failed(e),
            Ok(()) => if self.has_payload {
                self.next(cancelled)
            } else {
                ReceiveStep::Finish
            },
        }
    }

    /// A read is over.
    pub fn read(&self, outcome: ReadOutcome) -> (r: ReceiveStep)
        ensures
            r@ == after_read(self@, outcome),
    {
        match outcome {
            ReadOutcome::Got(n) => if n == 0 && self.size == UNKNOWN_SIZE {
                ReceiveStep::Finish
            } else {
                ReceiveStep::Append(n)
            },
            ReadOutcome::TimedOut => ReceiveStep::Failed(Error::Other(READ_TIMED_OUT.to_owned())),
            ReadOutcome::Failed(e) => ReceiveStep::Failed(e),
        }
    }

    /// A chunk was appended to the staging file, which now holds this many
    /// bytes, or could not be. Returns the progress to publish, and what
    /// follows.
    pub fn appended(&mut self, outcome: Result<u64, Error>, cancelled: bool) -> (r: (
        Option<Event>,
        ReceiveStep,
    ))
        ensures
            r.1@ == after_append(old(self)@.size, outcome, cancelled),
            match outcome {
                Ok(done) => {
                    &&& final(self)@ == (ReceiptView { done, ..old(self)@ })
                    &&& r.0 matches Some(event) && event@ == progress(
                        old(self)@.transfer_id,
                        done,
                        old(self)@.size,
                    )
                },
                Err(_) => final(self)@ == old(self)@ && r.0 is None,
            },
    {
        match outcome {
            Err(e) => (None, ReceiveStep::Failed(e)),
            Ok(done) => {
                self.done = done;
                let event = Event::TransferProgress {
                    id: self.transfer_id.clone(),
                    bytes_done: done,
                    bytes_total: self.size,
                };
                let step = if self.size != UNKNOWN_SIZE && done >= self.size {
                    ReceiveStep::Finish
                } else {
                    self.next(cancelled)
                };
                (Some(event), step)
            },
        }
    }

    /// The staging file got its final name, or could not get one.
    pub fn finished(&self, outcome: Result<String, Error>) -> (r: ReceiveStep)
        ensures
            r@ == after_finish(self@, outcome),
    {
        match outcome {
            Err(e) => ReceiveStep::Failed(e),
            Ok(path) => match &self.target {
                SaveTarget::Uri(uri) => ReceiveStep::Deliver { local: path, uri: uri.clone() },
                SaveTarget::Local(_) => ReceiveStep::Received(self.share_received(path.as_str())),
            },
        }
    }

    /// The finished file was copied to its destination, or could not be.
    pub fn delivered(&self, local: String, outcome: Result<(), Error>) -> (r: ReceiveStep)
        ensures
            r@ == after_delivery(self@, local@, outcome),
    {
        match outcome {
            Err(e) => ReceiveStep::Discard { local, error: e },
            Ok(()) => ReceiveStep::Received(self.share_received(local.as_str())),
        }
    }

    fn share_received(&self, final_path: &str) -> (r: Event)
        ensures
            r@ == received_event(self@, final_path@),
    {
        let path = match &self.target {
            SaveTarget::Uri(uri) => backends::child_of_uri(uri.as_str(), self.file_name.as_str()),
            SaveTarget::Local(_) => final_path.to_owned(),
        };
        Event::ShareReceived { path, device_id: self.device_id.clone() }
    }
}

/// Where a received file is reported to be.
pub open spec fn share_path_of(
    target: SaveTarget<Seq<char>>,
    final_path: Seq<char>,
    file_name: Seq<char>,
) -> Seq<char> {
    match target {
        SaveTarget::Uri(uri) => backends::uri_child(uri, file_name),
        SaveTarget::Local(_) => final_path,
    }
}

/// The event about a received file.
pub open spec fn received_event(receipt: ReceiptView, final_path: Seq<char>) -> Event<Seq<char>> {
    Event::ShareReceived {
        path: share_path_of(receipt.target, final_path, receipt.file_name),
        device_id: receipt.device_id,
    }
}

/// What the sending side does next.
#[derive(Debug)]
pub enum SendStep {
    /// Read at most this many bytes of the file.
    Read(usize),
    /// Write the bytes that were read, this many, to the data connection.
    Write(usize),
    /// The stream is over.
    Sent,
    /// The transfer failed.
    Failed(Error),
}

/// What a [`SendStep`] says.
pub enum SendView {
    /// Read at most this many bytes.
    Read(usize),
    /// Write this many bytes.
    Write(usize),
    /// The stream is over.
    Sent,
    /// The transfer failed.
    Failed(Seq<char>),
}

impl View for SendStep {
    type V = SendView;

    open spec fn view(&self) -> SendView {
        match self {
            SendStep::Read(n) => SendView::Read(*n),
            SendStep::Write(n) => SendView::Write(*n),
            SendStep::Sent => SendView::Sent,
            SendStep::Failed(error) => SendView::Failed(error.text()),
        }
    }
}

/// What follows with `done` of `size` bytes out: when the announced bytes are
/// out the stream is over, and no more of the file is read than is left.
pub open spec fn send_step(size: u64, done: u64, cancelled: bool) -> SendView {
    if done >= size {
        SendView::Sent
    } else if cancelled {
        SendView::Failed(CANCELLED@)
    } else if size - done < PAYLOAD_CHUNK_SIZE {
        SendView::Read((size - done) as usize)
    } else {
        SendView::Read(PAYLOAD_CHUNK_SIZE)
    }
}

/// What follows once the data connection is there: where its far end is not
/// `admitted`, nothing of the file is read.
pub open spec fn first_step(admitted: bool, size: u64, done: u64, cancelled: bool) -> SendView {
    if admitted {
        send_step(size, done, cancelled)
    } else {
        SendView::Failed(STRANGER@)
    }
}

/// What follows a read of the file with `done` of `size` bytes out. A file
/// that ends before the announced size fails, and of a longer one only what
/// was announced is written.
pub open spec fn after_file_read(size: u64, done: u64, outcome: Result<usize, Error>) -> SendView {
    match outcome {
        Err(e) => SendView::Failed(e.text()),
        Ok(n) => if done >= size {
            SendView::Sent
        } else if n == 0 {
            SendView::Failed(SOURCE_ENDED@)
        } else if n < size - done {
            SendView::Write(n)
        } else {
            SendView::Write((size - done) as usize)
        },
    }
}

/// What follows a write that brought the bytes out to `done` of `size`.
pub open spec fn after_write(
    size: u64,
    done: u64,
    outcome: Result<(), Error>,
    cancelled: bool,
) -> SendView {
    match outcome {
        Err(e) => SendView::Failed(e.text()),
        Ok(()) => send_step(size, done, cancelled),
    }
}

/// A file that is being sent.
#[derive(Debug)]
pub struct OutgoingStream {
    transfer_id: String,
    size: u64,
    done: u64,
}

impl OutgoingStream {
    /// The transfer that the payload belongs to.
    pub closed spec fn id(&self) -> Seq<char> {
        self.transfer_id@
    }

    /// The announced size.
    pub closed spec fn announced(&self) -> u64 {
        self.size
    }

    /// Bytes sent so far.
    pub closed spec fn sent(&self) -> u64 {
        self.done
    }

    /// A payload of which nothing has been sent.
    pub fn new(transfer_id: String, size: u64) -> (r: Self)
        ensures
            r.id() == transfer_id@,
            r.announced() == size,
            r.sent() == 0,
            r.wf(),
    {
        OutgoingStream { transfer_id, size, done: 0 }
    }

    /// Bytes sent so far.
    pub fn position(&self) -> (r: u64)
        ensures
            r == self.sent(),
    {
        self.done
    }

    /// Never more than the announced bytes are out.
    pub open spec fn wf(&self) -> bool {
        self.sent() <= self.announced()
    }

    /// The data connection is there; `admitted` says whether its far end may
    /// have the file.
    pub fn started(&self, admitted: bool, cancelled: bool) -> (r: SendStep)
        ensures
            r@ == first_step(admitted, self.announced(), self.sent(), cancelled),
    {
        if admitted {
            self.next_step(cancelled)
        } else {
            SendStep::Failed(Error::Other(STRANGER.to_owned()))
        }
    }

    /// What follows with the bytes that are out.
    fn next_step(&self, cancelled: bool) -> (r: SendStep)
        ensures
            r@ == send_step(self.announced(), self.sent(), cancelled),
    {
        if self.done >= self.size {
            SendStep::Sent
        } else if cancelled {
            SendStep::Failed(Error::Other(CANCELLED.to_owned()))
        } else if self.size - self.done < PAYLOAD_CHUNK_SIZE as u64 {
            SendStep::Read((self.size - self.done) as usize)
        } else {
            SendStep::Read(PAYLOAD_CHUNK_SIZE)
        }
    }

    /// A read of the file is over.
    pub fn read(&self, outcome: Result<usize, Error>) -> (r: SendStep)
        ensures
            r@ == after_file_read(self.announced(), self.sent(), outcome),
    {
        match outcome {
            Err(e) => SendStep::Failed(e),
            Ok(n) => if self.done >= self.size {
                SendStep::Sent
            } else if n == 0 {
                SendStep::Failed(Error::Other(SOURCE_ENDED.to_owned()))
            } else if (n as u64) < self.size - self.done {
                SendStep::Write(n)
            } else {
                SendStep::Write((self.size - self.done) as usize)
            },
        }
    }

    /// `n` bytes were written to the data connection, or could not be.
    /// Returns the progress to publish, and what follows.
    pub fn written(&mut self, n: usize, outcome: Result<(), Error>, cancelled: bool) -> (r: (
        Option<Event>,
        SendStep,
    ))
        requires
            old(self).sent() + n <= old(self).announced(),
        ensures
            final(self).wf(),
            final(self).id() == old(self).id(),
            final(self).announced() == old(self).announced(),
            r.1@ == after_write(
                old(self).announced(),
                (old(self).sent() + n) as u64,
                outcome,
                cancelled,
            ),
            match outcome {
                Ok(()) => {
                    &&& final(self).sent() == old(self).sent() + n
                    &&& r.0 matches Some(event) && event@ == progress(
                        old(self).id(),
                        final(self).sent(),
                        old(self).announced(),
                    )
                },
                Err(_) => final(self).sent() == old(self).sent() && r.0 is None,
            },
    {
        match outcome {
            Err(e) => (None, SendStep::Failed(e)),
            Ok(()) => {
                self.done = self.done + n as u64;
                let event = Event::TransferProgress {
                    id: self.transfer_id.clone(),
                    bytes_done: self.done,
                    bytes_total: self.size,
                };
                (Some(event), self.next_step(cancelled))
            },
        }
    }
}

/// The bytes that a list of chunk sizes amounts to.
pub open spec fn total(reads: Seq<nat>) -> nat
    decreases reads.len(),
{
    if reads.len() == 0 {
        0
    } else {
        total(reads.drop_last()) + reads.last()
    }
}

/// Whether a stream of `size` bytes that has received `done` asks for the
/// reads one after the other, each answered in full, and is then complete.
pub open spec fn fully_read(size: u64, done: u64, reads: Seq<nat>) -> bool
    decreases reads.len(),
{
    if reads.len() == 0 {
        receive_step(false, size, done) == ReceiveView::Finish
    } else {
        match receive_step(false, size, done) {
            ReceiveView::ReadExactly(n) => reads[0] == n && fully_read(
                size,
                (done + n) as u64,
                reads.drop_first(),
            ),
            _ => false,
        }
    }
}

proof fn lemma_total_first(reads: Seq<nat>)
    requires
        reads.len() > 0,
    ensures
        total(reads) == reads[0] + total(reads.drop_first()),
    decreases reads.len(),
{
    if reads.len() > 1 {
        lemma_total_first(reads.drop_last());
        assert(reads.drop_last().drop_first() =~= reads.drop_first().drop_last());
        assert(reads.drop_first().last() == reads.last());
    } else {
        assert(reads.drop_last() =~= Seq::empty());
        assert(reads.drop_first() =~= Seq::empty());
    }
}

/// A stream with an announced size reads exactly that many bytes before it is
/// complete, however they are cut.
pub proof fn law_exactly_the_announced_bytes(size: u64, done: u64, reads: Seq<nat>)
    requires
        size != UNKNOWN_SIZE,
        done <= size,
        fully_read(size, done, reads),
    ensures
        done + total(reads) == size,
    decreases reads.len(),
{
    if reads.len() > 0 {
        lemma_total_first(reads);
        law_exactly_the_announced_bytes(size, (done + reads[0]) as u64, reads.drop_first());
    }
}

/// A file is finished only with every announced byte in the staging file,
/// which never holds more.
pub proof fn law_finished_files_are_complete(size: u64, done: u64, cancelled: bool)
    requires
        size != UNKNOWN_SIZE,
        done <= size,
        after_append(size, Ok(done), cancelled) == ReceiveView::Finish,
    ensures
        done == size,
{
}

/// Whether a stream of `size` bytes of which `done` are out, whose file gives
/// the reads one after the other, is then sent.
pub open spec fn fully_sent(size: u64, done: u64, reads: Seq<nat>) -> bool
    decreases reads.len(),
{
    if reads.len() == 0 {
        send_step(size, done, false) == SendView::Sent
    } else {
        match (send_step(size, done, false), after_file_read(size, done, Ok(reads[0] as usize))) {
            (SendView::Read(most), SendView::Write(n)) => reads[0] <= most && n == reads[0]
                && fully_sent(size, (done + n) as u64, reads.drop_first()),
            _ => false,
        }
    }
}

/// A stream that is sent has exactly the announced bytes out, however they
/// were read.
pub proof fn law_sent_streams_are_complete(size: u64, done: u64, reads: Seq<nat>)
    requires
        done <= size,
        fully_sent(size, done, reads),
    ensures
        done + total(reads) == size,
    decreases reads.len(),
{
    if reads.len() > 0 {
        lemma_total_first(reads);
        law_sent_streams_are_complete(size, (done + reads[0]) as u64, reads.drop_first());
    }
}

/// No read goes beyond the announced bytes, and no write follows that would:
/// a file that changed its length is never sent longer than it was announced,
/// and one that ended early is never reported as sent.
pub proof fn law_streams_keep_to_the_announced_size(size: u64, done: u64, n: usize)
    requires
        done < size,
    ensures
        send_step(size, done, false) matches SendView::Read(most) && 0 < most && done + most
            <= size,
        after_file_read(size, done, Ok(0)) is Failed,
        n > 0 ==> (after_file_read(size, done, Ok(n)) matches SendView::Write(k) && 0 < k && done + k
            <= size),
{
}

/// Cancelling a transfer stops it before its next read, on either side; what
/// was received is removed. Only a transfer whose last byte has moved already
/// is not stopped.
pub proof fn law_cancelled_streams_stop(size: u64, done: u64)
    requires
        done < size,
    ensures
        after_append(size, Ok(done), true) == ReceiveView::Abort,
        after_write(size, done, Ok(()), true) == SendView::Failed(CANCELLED@),
{
}

/// A file that was received is reported to come from its device, at the place
/// where it now is: its local path, or its name below the URI that it was
/// copied to. A file for a local directory is reported once it has its final
/// name; one for a URI is first copied there, and reported once that is done.
pub proof fn law_received_files_are_reported_where_they_are(
    receipt: ReceiptView,
    path: String,
    dir: Seq<char>,
    uri: Seq<char>,
    e: Error,
)
    ensures
        receipt.target == SaveTarget::Local(dir) ==> after_finish(receipt, Ok(path))
            == ReceiveView::Received(
            Event::ShareReceived { path: path@, device_id: receipt.device_id },
        ),
        receipt.target == SaveTarget::Uri(uri) ==> after_finish(receipt, Ok(path)) == (
        ReceiveView::Deliver { local: path@, uri }),
        receipt.target == SaveTarget::Uri(uri) ==> after_delivery(receipt, path@, Ok(()))
            == ReceiveView::Received(
            Event::ShareReceived {
                path: backends::uri_child(uri, receipt.file_name),
                device_id: receipt.device_id,
            },
        ),
        after_delivery(receipt, path@, Err(e)) == (ReceiveView::Discard {
            local: path@,
            error: e.text(),
        }),
        after_finish(receipt, Err(e)) == ReceiveView::Failed(e.text()),
{
}

/// A stream asks for what is missing and for no more: with bytes missing it
/// reads, at most a chunk and at most what is missing; with none missing the
/// file is finished. A stream without an announced size reads on until it
/// ends, and what was read is appended in full.
pub proof fn law_streams_read_what_is_missing(
    receipt: ReceiptView,
    size: u64,
    done: u64,
    n: usize,
)
    requires
        size != UNKNOWN_SIZE,
    ensures
        done < size ==> (receive_step(false, size, done) matches ReceiveView::ReadExactly(k) && 0 < k
            && done + k <= size && k <= 65536),
        done >= size ==> receive_step(false, size, done) == ReceiveView::Finish,
        receive_step(true, size, done) == ReceiveView::Abort,
        receive_step(false, UNKNOWN_SIZE, done) matches ReceiveView::ReadSome(k) && k > 0,
        n > 0 ==> after_read(receipt, ReadOutcome::Got(n)) == ReceiveView::Append(n),
        receipt.size == UNKNOWN_SIZE ==> after_read(receipt, ReadOutcome::Got(0))
            == ReceiveView::Finish,
        after_read(receipt, ReadOutcome::TimedOut) is Failed,
        done < size ==> !(after_append(size, Ok(done), false) is Finish),
        done >= size ==> after_append(size, Ok(done), false) == ReceiveView::Finish,
{
}

/// A data connection that may not have the file gets nothing of it; one that
/// may gets all of it, and what is written is what was read.
pub proof fn law_files_go_to_admitted_peers_only(size: u64, done: u64, n: usize, e: Error)
    requires
        done < size,
    ensures
        first_step(false, size, done, false) is Failed,
        first_step(true, size, done, false) is Read,
        0 < n <= size - done ==> after_file_read(size, done, Ok(n)) == SendView::Write(n),
        after_write(size, size, Ok(()), false) == SendView::Sent,
        after_write(size, done, Ok(()), false) is Read,
        after_write(size, done, Err(e), false) == SendView::Failed(e.text()),
        after_file_read(size, done, Err(e)) == SendView::Failed(e.text()),
{
}

/// Progress tells how many bytes of how many have moved.
pub proof fn law_progress_tells_done_and_total(id: Seq<char>, done: u64, size: u64)
    ensures
        progress(id, done, size) matches Event::TransferProgress {
            id: of,
            bytes_done,
            bytes_total,
        } && of == id && bytes_done == done && bytes_total == size,
{
}

/// A stream begins only once its staging file is there: without it the receipt
/// fails with what went wrong, a file without a payload is finished at once,
/// and any other one reads from where it stands unless it was cancelled.
pub proof fn law_receiving_begins_with_the_staging_file(
    receipt: ReceiptView,
    e: Error,
    cancelled: bool,
)
    ensures
        after_start(receipt, Err(e), cancelled) == ReceiveView::Failed(e.text()),
        !receipt.has_payload ==> after_start(receipt, Ok(()), cancelled) is Finish,
        receipt.has_payload && cancelled ==> after_start(receipt, Ok(()), cancelled) is Abort,
        receipt.has_payload && !cancelled && receipt.size != UNKNOWN_SIZE && receipt.done
            < receipt.size ==> after_start(receipt, Ok(()), cancelled) is ReadExactly,
        receipt.has_payload && !cancelled && receipt.size == UNKNOWN_SIZE ==> after_start(
            receipt,
            Ok(()),
            cancelled,
        ) is ReadSome,
{
}

} // verus!
