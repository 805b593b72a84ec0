//! The protocol's two-level error taxonomy.
//!
//! A `Error` value is a *shared* error: it propagates to the dispatcher
//! and terminates the connection. A `SubhandlerError` wraps either a
//! shared error or a handler-specific reason that is reported to the
//! client as that command's own `Error{reason}` message, after which the
//! session continues.

use vstd::prelude::*;

verus! {

/// Error code carried by the final `Goodbye` frame.
#[derive(Debug, Clone, PartialEq)]
pub enum ErrorCode {
    BadRequest(String),
}

/// How decoding an inbound frame's JSON body failed.
#[derive(Debug, Clone, PartialEq, Eq, Structural)]
pub enum DeserializationError {
    Io,
    Syntax,
    Data,
    Encoding,
    Eof,
}

#[derive(Debug, Clone, PartialEq, Eq, Structural)]
pub enum TcpSendError {
    Io,
}

#[derive(Debug, Clone, PartialEq, Eq, Structural)]
pub enum TcpReceiveError {
    Io,
}

#[derive(Debug, Clone, PartialEq, Eq, Structural)]
pub enum InboundMessageError {
    Unexpected,
}

#[derive(Debug, Clone, PartialEq, Eq, Structural)]
pub enum ProcessError {
    Encoding,
    Failed,
    Parsing,
}

/// A shared error: terminates the session.
#[derive(Debug, Clone, PartialEq, Eq, Structural)]
pub enum Error {
    Deserialization(DeserializationError),
    InboundMessage(InboundMessageError),
    Process(ProcessError),
    TcpReceive(TcpReceiveError),
    TcpSend(TcpSendError),
}

/// The classification a JSON decoder gives to a decoding failure.
/// The embedding binary converts its JSON library's category into this
/// enum; the mapping onto the protocol's error taxonomy lives here.
#[derive(Debug, Clone, Copy, PartialEq, Eq, Structural)]
pub enum JsonCategory {
    Io,
    Syntax,
    Data,
    Eof,
}

impl From<JsonCategory> for Error {
    fn from(category: JsonCategory) -> (r: Error) {
        match category {
            JsonCategory::Io => Error::Deserialization(DeserializationError::Io),
            JsonCategory::Syntax => Error::Deserialization(DeserializationError::Syntax),
            JsonCategory::Data => Error::Deserialization(DeserializationError::Data),
            JsonCategory::Eof => Error::Deserialization(DeserializationError::Eof),
        }
    }
}

impl vstd::std_specs::convert::FromSpecImpl<JsonCategory> for Error {
    open spec fn obeys_from_spec() -> bool {
        true
    }

    open spec fn from_spec(category: JsonCategory) -> Error {
        match category {
            JsonCategory::Io => Error::Deserialization(DeserializationError::Io),
            JsonCategory::Syntax => Error::Deserialization(DeserializationError::Syntax),
            JsonCategory::Data => Error::Deserialization(DeserializationError::Data),
            JsonCategory::Eof => Error::Deserialization(DeserializationError::Eof),
        }
    }
}

/// An error raised inside one command's sub-conversation: either a shared
/// error that must terminate the session, or the handler's own reason,
/// which becomes an outbound `Error{reason}` message.
#[derive(Debug, Clone, PartialEq)]
pub enum SubhandlerError<T> {
    Shared(Error),
    Subhandler(T),
}

} // verus!
