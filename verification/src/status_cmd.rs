//! The status command's replies.

use vstd::prelude::*;
use crate::status_entry::StatusResult;

verus! {

/// Why a `Status` request was answered with an error.
#[derive(Debug, Clone, PartialEq, Eq, Structural)]
pub enum ErrorReason {
    RepoPathNotSet,
}

/// The status handler's reply.
#[derive(Debug, Clone, PartialEq)]
pub enum OutboundMessage {
    Success { status: StatusResult },
    Error(ErrorReason),
}

} // verus!
