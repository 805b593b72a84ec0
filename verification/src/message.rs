//! Top-level protocol messages exchanged during the handshake and the
//! command loop, and the value carried on a session's inbox channel.

use vstd::prelude::*;
use crate::error::ErrorCode;
use crate::git_command;

verus! {

/// A semantic version triple, as advertised in the opening `Hello`.
#[derive(Debug, Clone, Copy, PartialEq, Eq, Structural)]
pub struct Version {
    pub major: u64,
    pub minor: u64,
    pub patch: u64,
}

/// The protocol version this server speaks.
pub open spec fn protocol_version() -> Version {
    Version { major: 0, minor: 1, patch: 0 }
}

/// Messages a client may send at the top level of a session.
#[derive(Debug, Clone, PartialEq)]
pub enum Inbound {
    Hello,
    GitCommand(git_command::Inbound),
    Goodbye,
}

/// Messages the server sends at the top level of a session.
#[derive(Debug, Clone, PartialEq)]
pub enum Outbound {
    Hello { version: Version },
    GladToMeetYou,
    Goodbye { error_code: Option<ErrorCode> },
}

/// A value carried on a session's inbox channel in the shared registry.
/// No handler sends one today; the channel is a hook for push
/// notifications.
#[derive(Debug, Clone, PartialEq, Eq, Structural)]
pub enum Message {
    Noop,
}

} // verus!
