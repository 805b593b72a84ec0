//! The interactive bisect sub-protocol's messages and helpers.

use vstd::prelude::*;
use crate::bisect_parse::{BisectFinish, BisectReachedMergeBase, BisectStep, BisectVisualize};
use crate::error::SubhandlerError;

verus! {

/// What the client may answer during a bisect sub-conversation.
#[derive(Debug, Clone, PartialEq, Eq, Structural)]
pub enum InboundMessage {
    Bad,
    Good,
    Reset,
    Visualize,
}

/// Why a bisect request was answered with an error.
#[derive(Debug, Clone, PartialEq, Eq, Structural)]
pub enum BisectError {
    AlreadyBisecting,
    RepoPathNotSet,
}

/// What the bisect handler sends.
#[derive(Debug, Clone, PartialEq)]
pub enum OutboundMessage {
    Error(BisectError),
    Finish(BisectFinish),
    ReachedMergeBase(BisectReachedMergeBase),
    Step(BisectStep),
    Visualize(BisectVisualize),
    Success,
}

/// The bisect preflight: a working copy must have been opened.
pub fn verify_repo_path(repo_path: Option<String>) -> (r: Result<
    String,
    SubhandlerError<BisectError>,
>)
    ensures
        match repo_path {
            Some(p) => r matches Ok(q) && q == p,
            None => r matches Err(e) && e == SubhandlerError::<BisectError>::Subhandler(
                BisectError::RepoPathNotSet,
            ),
        },
{
    match repo_path {
        Some(repo_path) => Ok(repo_path),
        None => Err(SubhandlerError::Subhandler(BisectError::RepoPathNotSet)),
    }
}

} // verus!
