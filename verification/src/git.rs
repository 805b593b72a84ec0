//! Helpers around the `git` child process: validating commit ids and
//! computing the environment the children run with.

use vstd::prelude::*;
use crate::parse_util::is_hex_digit;

verus! {

/// A string names a commit exactly when it is 40 characters long and
/// every character is a hexadecimal digit, either case.
pub open spec fn is_sha(s: Seq<char>) -> bool {
    &&& s.len() == 40
    &&& forall|i: int| 0 <= i < s.len() ==> is_hex_digit(s[i])
}

/// Whether `maybe_sha` is a 40-character hexadecimal commit id.
pub fn verify_string_is_sha(maybe_sha: &str) -> (r: bool)
    ensures
        r == is_sha(maybe_sha@),
{
    let len = maybe_sha.unicode_len();
    if len != 40 {
        return false;
    }
    let mut i: usize = 0;
    while i < len
        invariant
            0 <= i <= len,
            len == maybe_sha@.len(),
            forall|j: int| 0 <= j < i ==> is_hex_digit(maybe_sha@[j]),
        decreases len - i,
    {
        let c = maybe_sha.get_char(i);
        let hex = ('0' <= c && c <= '9') || ('a' <= c && c <= 'f') || ('A' <= c && c <= 'F');
        if !hex {
            return false;
        }
        i += 1;
    }
    true
}

/// The `PATH` value for `git` children: when a directory holding the
/// `git` binary is configured and the inherited `PATH` is available,
/// the configured directory is prepended with the platform's separator;
/// otherwise the environment is left untouched.
pub fn child_path_env(git_path: &Option<String>, inherited: &Option<String>, separator: &str)
    -> (r: Option<String>)
    ensures
        match (git_path, inherited) {
            (Some(g), Some(p)) => r matches Some(v) && v@ == g@ + separator@ + p@,
            _ => r is None,
        },
{
    match git_path {
        Some(g) => match inherited {
            Some(p) => {
                let mut v = g.clone();
                v.append(separator);
                v.append(p.as_str());
                Some(v)
            },
            None => None,
        },
        None => None,
    }
}

} // verus!
