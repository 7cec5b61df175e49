//! The ways in which reading and writing a frame end without a frame.

use vstd::prelude::*;

verus! {

/// Why no message came out of the bytes received.
#[derive(Clone, Copy, Debug, PartialEq, Eq, Structural)]
pub enum Error {
    /// The peer closed the stream, or reading from it failed.
    Shutdown,
    /// The payload of a frame is no message.
    ParseError,
    /// The bytes at hand end before the frame does.  This asks for another
    /// read; a caller of `Connection::read_frame` never sees it as a failure.
    Incomplete,
    /// A frame, or what had to be kept for it, is larger than allowed.
    FrameOverflow,
}

/// Why a message was not sent.
#[derive(Clone, Copy, Debug, PartialEq, Eq, Structural)]
pub enum WriteError {
    /// The message could not be written as a payload.
    EncodingError,
    /// The frame would be larger than allowed.
    FrameTooLarge,
    /// Writing to the stream, or flushing it, failed.
    IoError,
}

} // verus!
