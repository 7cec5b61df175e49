//! Message framing for a small chat protocol.
//!
//! A frame on the wire is an eight-byte header followed by a JSON payload:
//! a four-byte big-endian payload length, a four-byte big-endian frame
//! identifier, then exactly that many payload bytes.  The `codec` module
//! turns messages into frames and accumulated bytes back into messages; the
//! `connection` module keeps the accumulation buffer of one stream and decides
//! what the owner of the stream has to do next.

pub mod buffer;
pub mod codec;
pub mod connection;
pub mod error;
pub mod json;
pub mod message;
pub mod schema;
pub mod server;

pub use crate::codec::{Frame, HEADER_LENGTH, MAX_FRAME_LENGTH};
pub use crate::connection::{Connection, ReadStep, MAX_BUFFER_LENGTH};
pub use crate::error::{Error, WriteError};
pub use crate::message::{
    CreateGroupReq, Handle, Message, SearchOnlineReq, SendGroupReq, SendSingleReq, SignInReq,
    SignUpReq,
};
pub use crate::server::ServerHandle;
