//! The log command's replies.

use vstd::prelude::*;
use crate::log_parse::LogEntry;

verus! {

/// Why a `Log` request was answered with an error.
#[derive(Debug, Clone, PartialEq, Eq, Structural)]
pub enum ErrorReason {
    RepoHasNoCommits,
    RepoPathNotSet,
}

/// The log handler's reply.
#[derive(Debug, Clone, PartialEq)]
pub enum OutboundMessage {
    Success { log: Vec<LogEntry> },
    Error(ErrorReason),
}

} // verus!
