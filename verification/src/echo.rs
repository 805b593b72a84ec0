//! The echo command's reply: the child's decoded standard output.

use vstd::prelude::*;

verus! {

/// The echo handler's reply.
#[derive(Debug, Clone, PartialEq)]
pub enum Outbound {
    Result { output: String },
}

} // verus!
