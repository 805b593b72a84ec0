//! The open-repo command: validate a working-copy path and remember it
//! on the session.

use vstd::prelude::*;

verus! {

/// Why an `OpenRepo` request was rejected.
#[derive(Debug, Clone, PartialEq, Eq, Structural)]
pub enum ErrorReason {
    InvalidPath,
    MustBeAbsolutePath,
    IsNotRepo,
}

/// The handler's reply.
#[derive(Debug, Clone, PartialEq, Eq, Structural)]
pub enum OutboundMessage {
    Success,
    Error(ErrorReason),
}

/// What the embedding binary found when it examined `path + "/.git"`.
#[derive(Debug, Clone, Copy, PartialEq, Eq, Structural)]
pub enum PathProbe {
    Missing,
    Directory,
    NotDirectory,
}

/// A path is absolute exactly when it begins with the root separator.
pub open spec fn is_absolute_path(s: Seq<char>) -> bool {
    s.len() > 0 && s[0] == '/'
}

/// Whether `path` is absolute.
pub fn path_is_absolute(path: &str) -> (r: bool)
    ensures
        r == is_absolute_path(path@),
{
    if path.unicode_len() == 0 {
        return false;
    }
    path.get_char(0) == '/'
}

} // verus!
