//! The sub-commands a client may wrap in a `GitCommand` message.

use vstd::prelude::*;
use crate::merge_base;

verus! {

/// One git command request, dispatched to the matching handler.
#[derive(Debug, Clone, PartialEq)]
pub enum Inbound {
    Bisect { bad: String, good: String },
    Echo { input: String },
    Log,
    MergeBase(merge_base::Inbound),
    OpenRepo { path: String },
    Status,
}

} // verus!
