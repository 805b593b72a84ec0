//! The merge-base family of commands. Only `IsAncestor` exists today.

use vstd::prelude::*;

verus! {

/// A merge-base request.
#[derive(Debug, Clone, PartialEq)]
pub enum Inbound {
    IsAncestor { ancestor_sha: String, descendant_sha: String },
}

/// Why an `IsAncestor` request was answered with an error.
#[derive(Debug, Clone, PartialEq, Eq, Structural)]
pub enum ErrorReason {
    AncestorMustBeASha,
    DescendantMustBeASha,
    RepoPathNotSet,
    ShaIsNotACommit,
}

/// The handler's reply.
#[derive(Debug, Clone, PartialEq, Eq, Structural)]
pub enum OutboundMessage {
    Success { is_ancestor: bool },
    Error(ErrorReason),
}

} // verus!
