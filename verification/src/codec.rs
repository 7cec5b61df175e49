//! Frames: a header of two big-endian numbers, then the payload.
//!
//! ```text
//! +----------------+----------------+---------------------+
//! | payload length | frame id       | payload             |
//! | 4 bytes        | 4 bytes        | payload length bytes|
//! +----------------+----------------+---------------------+
//! ```
//!
//! `encode` builds a frame from a message, `decode` looks at accumulated
//! bytes and says whether they start with a whole frame.  Neither touches a
//! stream.

use crate::buffer::{be_u32, read_u32};
use crate::error::{Error, WriteError};
use crate::message::{Message, MessageView};
use crate::schema::{lemma_payload_round_trip, message_of_payload, payload_of, reads_back};
use vstd::prelude::*;
use vstd::slice::slice_subrange;

verus! {

/// The bytes of one frame.
pub type Frame = Vec<u8>;

/// The length of a frame's header.
pub const HEADER_LENGTH: usize = 8;

/// The length that no frame may exceed, header included.
pub const MAX_FRAME_LENGTH: usize = 1024 * 4;

/// The four bytes of a number, most significant first.
pub open spec fn be_bytes(n: u32) -> Seq<u8> {
    seq![
        (n / 0x100_0000) as u8,
        (n / 0x1_0000 % 0x100) as u8,
        (n / 0x100 % 0x100) as u8,
        (n % 0x100) as u8,
    ]
}

/// The frame that carries `payload` under the identifier `id`.
pub open spec fn frame_of(payload: Seq<u8>, id: u32) -> Seq<u8> {
    be_bytes(payload.len() as u32) + be_bytes(id) + payload
}

/// What framing a payload gives: the frame, unless it would be too large.
pub open spec fn frame_spec(payload: Seq<u8>, id: u32) -> Result<Seq<u8>, WriteError> {
    if HEADER_LENGTH + payload.len() > MAX_FRAME_LENGTH {
        Err(WriteError::FrameTooLarge)
    } else {
        Ok(frame_of(payload, id))
    }
}

/// What encoding a message gives: the frame round its payload.
pub open spec fn encode_spec(m: MessageView, id: u32) -> Result<Seq<u8>, WriteError> {
    match payload_of(m) {
        Some(payload) => frame_spec(payload, id),
        None => Err(WriteError::EncodingError),
    }
}

/// The payload length that the header at the start of `buf` declares.
pub open spec fn declared_length(buf: Seq<u8>) -> int {
    be_u32(buf.take(4))
}

/// What the bytes at hand decode to: a message with the number of bytes
/// that its frame takes, or the reason why there is none.
pub open spec fn decode_spec(buf: Seq<u8>) -> Result<(MessageView, nat), Error> {
    if buf.len() < HEADER_LENGTH {
        Err(Error::Incomplete)
    } else if HEADER_LENGTH + declared_length(buf) > MAX_FRAME_LENGTH {
        Err(Error::FrameOverflow)
    } else if buf.len() < HEADER_LENGTH + declared_length(buf) {
        Err(Error::Incomplete)
    } else {
        let end = HEADER_LENGTH + declared_length(buf);
        match message_of_payload(buf.subrange(HEADER_LENGTH as int, end)) {
            Some(m) => Ok((m, end as nat)),
            None => Err(Error::ParseError),
        }
    }
}

/// Whether a frame that was built is the one that was to be built.
pub open spec fn built(r: Result<Frame, WriteError>, expected: Result<Seq<u8>, WriteError>) -> bool {
    match r {
        Ok(frame) => expected == Ok::<Seq<u8>, WriteError>(frame@),
        Err(e) => expected == Err::<Seq<u8>, WriteError>(e),
    }
}

/// Whether what was decoded is what was to be decoded.
pub open spec fn decoded(
    r: Result<(Message, usize), Error>,
    expected: Result<(MessageView, nat), Error>,
) -> bool {
    match r {
        Ok((m, consumed)) => expected == Ok::<(MessageView, nat), Error>((m@, consumed as nat)),
        Err(e) => expected == Err::<(MessageView, nat), Error>(e),
    }
}

fn push_u32(out: &mut Vec<u8>, n: u32)
    ensures
        final(out)@ == old(out)@ + be_bytes(n),
{
    out.push((n / 0x100_0000) as u8);
    out.push((n / 0x1_0000 % 0x100) as u8);
    out.push((n / 0x100 % 0x100) as u8);
    out.push((n % 0x100) as u8);
    assert(out@ =~= old(out)@ + be_bytes(n));
}

/// Puts a payload into a frame.  A payload that would make the frame larger
/// than `MAX_FRAME_LENGTH` is refused, never cut.
pub fn frame(payload: &[u8], id: u32) -> (r: Result<Frame, WriteError>)
    ensures
        built(r, frame_spec(payload@, id)),
{
    if payload.len() > MAX_FRAME_LENGTH - HEADER_LENGTH {
        return Err(WriteError::FrameTooLarge);
    }
    let mut out: Vec<u8> = Vec::with_capacity(HEADER_LENGTH + payload.len());
    push_u32(&mut out, payload.len() as u32);
    push_u32(&mut out, id);
    let ghost header = out@;
    out.extend_from_slice(payload);
    assert(out@ =~= header + payload@);
    Ok(out)
}

/// Builds the frame of a message.
///
/// The result is `EncodingError` where the message cannot be written as a
/// payload, `FrameTooLarge` where the frame would exceed `MAX_FRAME_LENGTH`,
/// and otherwise the frame: the header with the payload's length and `id`,
/// then the payload.
pub fn encode(msg: &Message, id: u32) -> (r: Result<Frame, WriteError>)
    ensures
        built(r, encode_spec(msg@, id)),
        !(r matches Err(WriteError::IoError)),
{
    match msg.to_payload() {
        Some(payload) => frame(payload.as_slice(), id),
        None => Err(WriteError::EncodingError),
    }
}

/// Builds the frame of a message, and hands it out only after it has
/// decoded it again and found the same message in it.
///
/// With `Ok(frame)` the frame is the one that `encode` builds, and a peer
/// that decodes it gets `msg` and nothing else.  A frame that does not read
/// back is reported as `EncodingError`.
pub fn encode_checked(msg: &Message, id: u32) -> (r: Result<Frame, WriteError>)
    ensures
        match r {
            Ok(frame) => encode_spec(msg@, id) == Ok::<Seq<u8>, WriteError>(frame@)
                && decode_spec(frame@) == Ok::<(MessageView, nat), Error>((msg@, frame@.len())),
            Err(WriteError::FrameTooLarge) => encode_spec(msg@, id) == Err::<
                Seq<u8>,
                WriteError,
            >(WriteError::FrameTooLarge),
            Err(WriteError::EncodingError) => match encode_spec(msg@, id) {
                Ok(frame) => decode_spec(frame) != Ok::<(MessageView, nat), Error>(
                    (msg@, frame.len()),
                ),
                Err(e) => e == WriteError::EncodingError,
            },
            Err(WriteError::IoError) => false,
        },
{
    let frame = match encode(msg, id) {
        Ok(frame) => frame,
        Err(e) => {
            return Err(e);
        },
    };
    match decode(frame.as_slice()) {
        Ok((back, consumed)) => {
            if consumed == frame.len() && back.same_as(msg) {
                Ok(frame)
            } else {
                Err(WriteError::EncodingError)
            }
        },
        Err(_) => Err(WriteError::EncodingError),
    }
}

/// Looks for a whole frame at the start of `buf`.
///
/// - Fewer bytes than a header: `Incomplete`.
/// - A header that declares a frame larger than `MAX_FRAME_LENGTH`:
///   `FrameOverflow`, however many bytes have arrived.
/// - Fewer bytes than the frame declared: `Incomplete`.
/// - A payload that is no message: `ParseError`.
/// - Otherwise the message and the length of its frame.
///
/// Bytes behind the frame are not looked at.
pub fn decode(buf: &[u8]) -> (r: Result<(Message, usize), Error>)
    ensures
        decoded(r, decode_spec(buf@)),
        !(r matches Err(Error::Shutdown)),
        buf@.len() >= HEADER_LENGTH && HEADER_LENGTH + declared_length(buf@) > MAX_FRAME_LENGTH
            ==> r matches Err(Error::FrameOverflow),
        r matches Ok((_, consumed)) ==> HEADER_LENGTH <= consumed <= buf@.len() && consumed
            <= MAX_FRAME_LENGTH,
{
    if buf.len() < HEADER_LENGTH {
        return Err(Error::Incomplete);
    }
    let declared = read_u32(buf) as usize;
    if declared > MAX_FRAME_LENGTH - HEADER_LENGTH {
        return Err(Error::FrameOverflow);
    }
    let end = HEADER_LENGTH + declared;
    if buf.len() < end {
        return Err(Error::Incomplete);
    }
    let payload = slice_subrange(buf, HEADER_LENGTH, end);
    match Message::from_payload(payload) {
        Some(m) => Ok((m, end)),
        None => Err(Error::ParseError),
    }
}

/// Four bytes written for a number read back as that number.
pub proof fn lemma_be_round_trip(n: u32)
    ensures
        be_bytes(n).len() == 4,
        be_u32(be_bytes(n)) == n,
{
    assert(n / 0x100_0000 < 0x100 && (n / 0x100_0000) * 0x100_0000 + (n / 0x1_0000 % 0x100)
        * 0x1_0000 + (n / 0x100 % 0x100) * 0x100 + n % 0x100 == n) by (bit_vector);
}

/// A frame starts with the length of its payload: the header of
/// `frame_of(payload, id)` declares `payload.len()`, and the payload lies
/// behind the header.
pub proof fn lemma_frame_layout(payload: Seq<u8>, id: u32)
    requires
        payload.len() <= u32::MAX,
    ensures
        frame_of(payload, id).len() == HEADER_LENGTH + payload.len(),
        frame_of(payload, id).take(4) == be_bytes(payload.len() as u32),
        frame_of(payload, id).subrange(4, 8) == be_bytes(id),
        declared_length(frame_of(payload, id)) == payload.len(),
        frame_of(payload, id).skip(HEADER_LENGTH as int) == payload,
{
    let f = frame_of(payload, id);
    lemma_be_round_trip(payload.len() as u32);
    assert(f.take(4) =~= be_bytes(payload.len() as u32));
    assert(f.subrange(4, 8) =~= be_bytes(id));
    assert(f.skip(HEADER_LENGTH as int) =~= payload);
}

/// Decoding a frame that was built gives what its payload holds, and takes
/// the whole frame: for a payload that fits, `decode_spec` of
/// `frame_of(payload, id)` is the message of the payload with the frame's
/// length, or `ParseError` where the payload holds no message.
pub proof fn lemma_frame_round_trip(payload: Seq<u8>, id: u32)
    requires
        HEADER_LENGTH + payload.len() <= MAX_FRAME_LENGTH,
    ensures
        decode_spec(frame_of(payload, id)) == match message_of_payload(payload) {
            Some(m) => Ok::<(MessageView, nat), Error>((m, frame_of(payload, id).len())),
            None => Err::<(MessageView, nat), Error>(Error::ParseError),
        },
{
    let f = frame_of(payload, id);
    lemma_frame_layout(payload, id);
    assert(f.subrange(HEADER_LENGTH as int, HEADER_LENGTH + payload.len()) =~= payload);
}

/// What has been decided stays decided: once the bytes at hand give a
/// message or a failure other than `Incomplete`, bytes that arrive behind
/// them change nothing.
pub proof fn lemma_decode_stable(buf: Seq<u8>, more: Seq<u8>)
    requires
        decode_spec(buf) != Err::<(MessageView, nat), Error>(Error::Incomplete),
    ensures
        decode_spec(buf + more) == decode_spec(buf),
{
    let all = buf + more;
    assert(all.take(4) =~= buf.take(4));
    if HEADER_LENGTH + declared_length(buf) <= MAX_FRAME_LENGTH {
        let end = HEADER_LENGTH + declared_length(buf);
        assert(all.subrange(HEADER_LENGTH as int, end) =~= buf.subrange(HEADER_LENGTH as int, end));
    }
}

/// Nothing is decided before the frame is whole: while the bytes at hand
/// are a proper prefix of a frame that decodes, they are `Incomplete`.
pub proof fn lemma_decode_prefix(buf: Seq<u8>, n: int)
    requires
        0 <= n <= buf.len(),
        decode_spec(buf) matches Ok((_, consumed)) && n < consumed,
    ensures
        decode_spec(buf.take(n)) == Err::<(MessageView, nat), Error>(Error::Incomplete),
{
    if n >= HEADER_LENGTH {
        assert(buf.take(n).take(4) =~= buf.take(4));
    }
}

/// A header that declares too much is refused at once: with a header at
/// hand whose declared length does not fit, the result is `FrameOverflow`,
/// whether or not the declared bytes have arrived.
pub proof fn lemma_overflow_rejected(buf: Seq<u8>)
    requires
        buf.len() >= HEADER_LENGTH,
        HEADER_LENGTH + declared_length(buf) > MAX_FRAME_LENGTH,
    ensures
        decode_spec(buf) == Err::<(MessageView, nat), Error>(Error::FrameOverflow),
{
}

/// A payload that holds no message is never taken for one: a whole frame
/// whose payload holds none decodes to `ParseError`.
pub proof fn lemma_malformed_rejected(payload: Seq<u8>, id: u32, more: Seq<u8>)
    requires
        HEADER_LENGTH + payload.len() <= MAX_FRAME_LENGTH,
        message_of_payload(payload) is None,
    ensures
        decode_spec(frame_of(payload, id) + more) == Err::<(MessageView, nat), Error>(
            Error::ParseError,
        ),
{
    lemma_frame_round_trip(payload, id);
    lemma_decode_stable(frame_of(payload, id), more);
}

/// Decoding what was encoded gives the message back, and takes the whole
/// frame.  This holds of every message whose payload reads back what was
/// written for it.
pub proof fn lemma_round_trip(m: MessageView, id: u32, frame: Seq<u8>)
    requires
        encode_spec(m, id) == Ok::<Seq<u8>, WriteError>(frame),
        payload_of(m) matches Some(payload) && reads_back(m, payload),
    ensures
        decode_spec(frame) == Ok::<(MessageView, nat), Error>((m, frame.len())),
{
    let payload = payload_of(m)->Some_0;
    lemma_payload_round_trip(m, payload);
    lemma_frame_round_trip(payload, id);
}

} // verus!
