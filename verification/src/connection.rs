//! One end of a stream: what has arrived and is not decoded yet, and the
//! identifier of the next frame to send.
//!
//! A `Connection` never touches the stream.  Its owner reads and writes, and
//! asks the connection what to do next:
//!
//! ```text
//! read_frame --> Done(message)
//!     |     `--> Failed(error)
//!     `--> AwaitingMoreBytes --(one read)--> on_read --> Done / Failed
//!                   ^                           |
//!                   `----- AwaitingMoreBytes ---'
//! ```

use crate::buffer::{
    buffer_advance, buffer_bytes, buffer_extend, buffer_len, buffer_with_capacity, buffered,
};
use crate::codec::{
    built, decode, decode_spec, encode, encode_spec, lemma_decode_stable, Frame,
};
use crate::error::{Error, WriteError};
use crate::message::{Message, MessageView};
use crate::schema::payload_of;
use bytes::BytesMut;
use vstd::prelude::*;

verus! {

/// The number of bytes that a connection keeps at most while it waits for
/// the rest of a frame.
pub const MAX_BUFFER_LENGTH: usize = 1024 * 8;

/// The step by which frame identifiers advance.
pub const FRAME_ID_STEP: u32 = 2;

/// The state of one stream's framing.
pub struct Connection {
    buffer: BytesMut,
    stream_id: u32,
}

/// Where reading a frame stands.
#[derive(Clone, Debug, PartialEq, Eq)]
pub enum ReadStep {
    /// A frame was decoded; its bytes have left the buffer.
    Done(Message),
    /// The buffer holds no whole frame: read from the stream once and hand
    /// the outcome to `Connection::on_read`.
    AwaitingMoreBytes,
    /// No frame will come; the connection is to be given up.
    Failed(Error),
}

pub enum ReadStepView {
    Done(MessageView),
    AwaitingMoreBytes,
    Failed(Error),
}

impl View for ReadStep {
    type V = ReadStepView;

    open spec fn view(&self) -> ReadStepView {
        match *self {
            ReadStep::Done(m) => ReadStepView::Done(m@),
            ReadStep::AwaitingMoreBytes => ReadStepView::AwaitingMoreBytes,
            ReadStep::Failed(e) => ReadStepView::Failed(e),
        }
    }
}

/// One attempt to decode: the step it comes to, and the bytes that stay
/// buffered.  A decoded frame leaves the buffer, anything else leaves the
/// buffer as it was.
pub open spec fn step_of(pending: Seq<u8>) -> (ReadStepView, Seq<u8>) {
    match decode_spec(pending) {
        Ok((m, consumed)) => (ReadStepView::Done(m), pending.skip(consumed as int)),
        Err(Error::Incomplete) => (ReadStepView::AwaitingMoreBytes, pending),
        Err(e) => (ReadStepView::Failed(e), pending),
    }
}

/// What one read leads to.  `None` stands for a read that failed, no bytes
/// for a stream that the peer closed: both end in `Shutdown`.  Bytes that
/// would take the buffer over `MAX_BUFFER_LENGTH` end in `FrameOverflow`.
/// Other bytes go behind those that are buffered, and decoding is tried
/// again.
pub open spec fn after_read(pending: Seq<u8>, received: Option<Seq<u8>>) -> (
    ReadStepView,
    Seq<u8>,
) {
    match received {
        None => (ReadStepView::Failed(Error::Shutdown), pending),
        Some(chunk) => if chunk.len() == 0 {
            (ReadStepView::Failed(Error::Shutdown), pending)
        } else if pending.len() + chunk.len() > MAX_BUFFER_LENGTH {
            (ReadStepView::Failed(Error::FrameOverflow), pending)
        } else {
            step_of(pending + chunk)
        },
    }
}

/// The reads that follow `AwaitingMoreBytes`, given the bytes that each of
/// them returns: they go on until a step other than `AwaitingMoreBytes`
/// comes, or the list ends.
pub open spec fn read_on(pending: Seq<u8>, reads: Seq<Seq<u8>>) -> (ReadStepView, Seq<u8>)
    decreases reads.len(),
{
    if reads.len() == 0 {
        (ReadStepView::AwaitingMoreBytes, pending)
    } else {
        let (step, rest) = after_read(pending, Some(reads[0]));
        if step is AwaitingMoreBytes {
            read_on(rest, reads.skip(1))
        } else {
            (step, rest)
        }
    }
}

/// Reading one frame, given the bytes that the reads to come return: one
/// attempt on what is buffered, then reads for as long as a frame is
/// awaited.
pub open spec fn read_loop(pending: Seq<u8>, reads: Seq<Seq<u8>>) -> (ReadStepView, Seq<u8>) {
    let (step, rest) = step_of(pending);
    if step is AwaitingMoreBytes {
        read_on(rest, reads)
    } else {
        (step, rest)
    }
}

/// The chunks of a delivery, one behind the other.
pub open spec fn concat(chunks: Seq<Seq<u8>>) -> Seq<u8>
    decreases chunks.len(),
{
    if chunks.len() == 0 {
        Seq::empty()
    } else {
        chunks[0] + concat(chunks.skip(1))
    }
}

impl Connection {
    #[verifier::type_invariant]
    spec fn within_ceiling(self) -> bool {
        buffered(self.buffer).len() <= MAX_BUFFER_LENGTH
    }

    /// The bytes that have arrived and are not decoded yet.
    pub closed spec fn pending(&self) -> Seq<u8> {
        buffered(self.buffer)
    }

    /// The identifier that the next frame built will carry.
    pub closed spec fn next_id(&self) -> u32 {
        self.stream_id
    }

    /// The state for a stream on which nothing has happened yet.
    pub fn new() -> (c: Connection)
        ensures
            c.pending() == Seq::<u8>::empty(),
            c.next_id() == 0,
    {
        assert(MAX_BUFFER_LENGTH <= isize::MAX);
        Connection { buffer: buffer_with_capacity(MAX_BUFFER_LENGTH), stream_id: 0 }
    }

    /// The number of bytes that one read may hand to `on_read` at most:
    /// the room that is left under `MAX_BUFFER_LENGTH`.
    pub fn read_capacity(&self) -> (n: usize)
        ensures
            n == MAX_BUFFER_LENGTH - self.pending().len(),
            self.pending().len() <= MAX_BUFFER_LENGTH,
    {
        proof {
            use_type_invariant(self);
        }
        MAX_BUFFER_LENGTH - buffer_len(&self.buffer)
    }

    /// Decodes the frame at the start of the buffer and takes its bytes out.
    /// Without a frame the buffer stays as it is, and the error says why:
    /// `Incomplete`, `FrameOverflow` or `ParseError`, as `decode` has it.
    pub fn parse_frame(&mut self) -> (r: Result<Message, Error>)
        ensures
            match r {
                Ok(m) => decode_spec(old(self).pending()) matches Ok((view, consumed)) && view
                    == m@ && final(self).pending() == old(self).pending().skip(consumed as int),
                Err(e) => decode_spec(old(self).pending()) == Err::<(MessageView, nat), Error>(e)
                    && final(self).pending() == old(self).pending(),
            },
            final(self).next_id() == old(self).next_id(),
            final(self).pending().len() <= old(self).pending().len() <= MAX_BUFFER_LENGTH,
    {
        proof {
            use_type_invariant(&*self);
        }
        match decode(buffer_bytes(&self.buffer)) {
            Ok((m, consumed)) => {
                buffer_advance(&mut self.buffer, consumed);
                Ok(m)
            },
            Err(e) => Err(e),
        }
    }

    /// Builds the frame of a message under the connection's next
    /// identifier.  The identifier advances by `FRAME_ID_STEP`, wrapping
    /// round, whenever the message could be written as a payload, also where
    /// the frame is then refused as too large.
    pub fn new_frame(&mut self, msg: &Message) -> (r: Result<Frame, WriteError>)
        ensures
            built(r, encode_spec(msg@, old(self).next_id())),
            final(self).pending() == old(self).pending(),
            final(self).next_id() == if payload_of(msg@) is Some {
                old(self).next_id().wrapping_add(FRAME_ID_STEP)
            } else {
                old(self).next_id()
            },
    {
        proof {
            use_type_invariant(&*self);
        }
        let r = encode(msg, self.stream_id);
        match r {
            Err(WriteError::EncodingError) => {},
            _ => {
                self.stream_id = self.stream_id.wrapping_add(FRAME_ID_STEP);
            },
        }
        r
    }

    /// Tries to take the next message out of what is buffered.
    ///
    /// On `AwaitingMoreBytes` the caller reads from the stream once, at most
    /// `read_capacity()` bytes, and calls `on_read` with the outcome.
    pub fn read_frame(&mut self) -> (step: ReadStep)
        ensures
            (step@, final(self).pending()) == step_of(old(self).pending()),
            final(self).next_id() == old(self).next_id(),
            final(self).pending().len() <= old(self).pending().len() <= MAX_BUFFER_LENGTH,
    {
        match self.parse_frame() {
            Ok(m) => ReadStep::Done(m),
            Err(Error::Incomplete) => ReadStep::AwaitingMoreBytes,
            Err(e) => ReadStep::Failed(e),
        }
    }

    /// Takes in what one read returned, and tries again.
    ///
    /// `received` is `None` where the read failed, and else the bytes read:
    /// none where the peer has closed the stream.
    pub fn on_read(&mut self, received: Option<&[u8]>) -> (step: ReadStep)
        ensures
            (step@, final(self).pending()) == after_read(
                old(self).pending(),
                match received {
                    Some(chunk) => Some(chunk@),
                    None => None,
                },
            ),
            final(self).next_id() == old(self).next_id(),
            final(self).pending().len() <= MAX_BUFFER_LENGTH,
    {
        proof {
            use_type_invariant(&*self);
        }
        match received {
            None => ReadStep::Failed(Error::Shutdown),
            Some(chunk) => {
                if chunk.len() == 0 {
                    ReadStep::Failed(Error::Shutdown)
                } else if chunk.len() > MAX_BUFFER_LENGTH - buffer_len(&self.buffer) {
                    ReadStep::Failed(Error::FrameOverflow)
                } else {
                    buffer_extend(&mut self.buffer, chunk);
                    self.read_frame()
                }
            },
        }
    }
}

proof fn lemma_read_on(pending: Seq<u8>, chunks: Seq<Seq<u8>>)
    requires
        forall|i: int| 0 <= i < chunks.len() ==> (#[trigger] chunks[i]).len() > 0,
        pending.len() + concat(chunks).len() <= MAX_BUFFER_LENGTH,
        step_of(pending).0 is AwaitingMoreBytes,
    ensures
        read_on(pending, chunks).0 == step_of(pending + concat(chunks)).0,
        step_of(pending + concat(chunks)).0 is Done && step_of(pending + concat(chunks)).1.len()
            == 0 ==> read_on(pending, chunks).1 == step_of(pending + concat(chunks)).1,
    decreases chunks.len(),
{
    let whole = pending + concat(chunks);
    if chunks.len() == 0 {
        assert(whole =~= pending);
    } else {
        let first = chunks[0];
        let rest = chunks.skip(1);
        let grown = pending + first;
        assert(whole =~= grown + concat(rest));
        assert forall|i: int| 0 <= i < rest.len() implies (#[trigger] rest[i]).len() > 0 by {
            assert(rest[i] == chunks[i + 1]);
        }
        if step_of(grown).0 is AwaitingMoreBytes {
            lemma_read_on(grown, rest);
        } else {
            lemma_decode_stable(grown, concat(rest));
            if step_of(whole).0 is Done && step_of(whole).1.len() == 0 {
                assert(concat(rest).len() == 0);
                assert(whole =~= grown);
            }
        }
    }
}

/// However the bytes are split on their way, the same comes out: where
/// bytes arrive on a fresh connection in chunks, none of them empty, reading
/// comes to the step that it comes to where they arrive in one piece, with
/// the same message or the same failure.  Where the bytes are exactly one
/// frame, nothing is left in the buffer either way.
pub proof fn lemma_incremental_delivery(bytes: Seq<u8>, chunks: Seq<Seq<u8>>)
    requires
        forall|i: int| 0 <= i < chunks.len() ==> (#[trigger] chunks[i]).len() > 0,
        concat(chunks) == bytes,
        0 < bytes.len() <= MAX_BUFFER_LENGTH,
    ensures
        read_loop(Seq::empty(), chunks).0 == read_loop(Seq::empty(), seq![bytes]).0,
        decode_spec(bytes) matches Ok((_, consumed)) && consumed == bytes.len() ==> read_loop(
            Seq::empty(),
            chunks,
        ) == read_loop(Seq::empty(), seq![bytes]) && read_loop(Seq::empty(), chunks).1.len() == 0,
{
    let nothing = Seq::<u8>::empty();
    let whole = seq![bytes];
    assert(whole.skip(1) =~= Seq::<Seq<u8>>::empty());
    assert(concat(whole) =~= bytes) by {
        assert(concat(whole.skip(1)) =~= nothing);
    }
    assert(nothing + bytes =~= bytes);
    lemma_read_on(nothing, chunks);
    lemma_read_on(nothing, whole);
}

/// What follows a frame stays for the next call: with a whole frame at the
/// start of the buffer, one attempt gives its message and leaves exactly the
/// bytes behind it, so that a second frame behind the first is decoded by
/// the next attempt.
pub proof fn lemma_pipelined(first: Seq<u8>, rest: Seq<u8>)
    requires
        decode_spec(first) matches Ok((_, consumed)) && consumed == first.len(),
    ensures
        step_of(first + rest) == (step_of(first).0, rest),
        step_of(first).0 is Done,
{
    lemma_decode_stable(first, rest);
    assert((first + rest).skip(first.len() as int) =~= rest);
}

/// A stream that closes before it has delivered anything ends the first
/// call in `Shutdown`.
pub proof fn lemma_clean_shutdown(reads: Seq<Seq<u8>>)
    requires
        reads.len() > 0,
        reads[0].len() == 0,
    ensures
        read_loop(Seq::empty(), reads) == (
            ReadStepView::Failed(Error::Shutdown),
            Seq::<u8>::empty(),
        ),
{
}

/// No call leaves more than `MAX_BUFFER_LENGTH` bytes in the buffer, and
/// while a frame is awaited the buffer holds less than a frame may have.
pub proof fn lemma_buffer_bounded(pending: Seq<u8>, received: Option<Seq<u8>>)
    requires
        pending.len() <= MAX_BUFFER_LENGTH,
    ensures
        step_of(pending).1.len() <= MAX_BUFFER_LENGTH,
        after_read(pending, received).1.len() <= MAX_BUFFER_LENGTH,
        step_of(pending).0 is AwaitingMoreBytes ==> pending.len() < crate::codec::MAX_FRAME_LENGTH,
{
}

} // verus!
