//! Parser for `git log` output produced with the fixed format
//! `sha %H\nparents %P\nauthor %an\nemail %ae\ndate %ai\nsummary %s\n`
//! `description %b\x00\x00`, entries separated by `"\0\0\n"`.
//!
//! Each sub-grammar has a spec-level model (`sp_*`); the executable
//! parser returns exactly what the model says. The entry list is greedy:
//! it ends before the first separator that is not followed by another
//! well-formed entry.

use vstd::prelude::*;
use crate::error::Error;
use crate::parse_util::{sp_sha, sp_tag, sp_until, tag_at, take_sha, take_tag, take_until};

verus! {

/// The commit and its parents.
#[derive(Debug, Clone, PartialEq)]
pub struct TreeInfo {
    pub sha: String,
    pub parents: Vec<String>,
}

/// Who wrote the commit, and when.
#[derive(Debug, Clone, PartialEq)]
pub struct SignatureInfo {
    pub author: String,
    pub email: String,
    pub date: String,
}

/// The commit's message.
#[derive(Debug, Clone, PartialEq)]
pub struct BodyInfo {
    pub summary: String,
    pub description: String,
}

/// One parsed `git log` entry.
#[derive(Debug, Clone, PartialEq)]
pub struct LogEntry {
    pub author: String,
    pub date: String,
    pub description: String,
    pub email: String,
    pub parents: Vec<String>,
    pub sha: String,
    pub summary: String,
}

/// Spec-level value of one log entry.
pub ghost struct SpecLogEntry {
    pub author: Seq<char>,
    pub date: Seq<char>,
    pub description: Seq<char>,
    pub email: Seq<char>,
    pub parents: Seq<Seq<char>>,
    pub sha: Seq<char>,
    pub summary: Seq<char>,
}

impl View for LogEntry {
    type V = SpecLogEntry;

    open spec fn view(&self) -> SpecLogEntry {
        SpecLogEntry {
            author: self.author@,
            date: self.date@,
            description: self.description@,
            email: self.email@,
            parents: self.parents.deep_view(),
            sha: self.sha@,
            summary: self.summary@,
        }
    }
}

impl DeepView for LogEntry {
    type V = SpecLogEntry;

    open spec fn deep_view(&self) -> SpecLogEntry {
        self.view()
    }
}

/// A non-empty space-separated list of 40-character ids at `pos`.
/// The list continues past a space only when 40 more characters follow.
pub open spec fn sp_parent_list(s: Seq<char>, pos: int) -> Option<(Seq<Seq<char>>, int)>
    decreases s.len() - pos,
{
    if !(0 <= pos && pos + 40 <= s.len()) {
        None
    } else {
        let sha = s.subrange(pos, pos + 40);
        let e = pos + 40;
        if e < s.len() && s[e] == ' ' && e + 1 + 40 <= s.len() {
            match sp_parent_list(s, e + 1) {
                None => None,
                Some((rest, end)) => Some((seq![sha] + rest, end)),
            }
        } else {
            Some((seq![sha], e))
        }
    }
}

/// The `parents` field: empty when the line ends at once, otherwise a
/// space-separated id list. A short first id leaves the list empty and
/// the position unmoved, and the line's newline check fails afterwards.
pub open spec fn sp_parents(s: Seq<char>, pos: int) -> Option<(Seq<Seq<char>>, int)> {
    if !(0 <= pos < s.len()) {
        None
    } else if s[pos] == '\n' {
        Some((seq![], pos))
    } else if pos + 40 <= s.len() {
        sp_parent_list(s, pos)
    } else {
        Some((seq![], pos))
    }
}

/// The `sha` and `parents` lines.
pub open spec fn sp_tree(s: Seq<char>, pos: int) -> Option<((Seq<char>, Seq<Seq<char>>), int)> {
    match sp_tag(s, pos, "sha "@) {
        None => None,
        Some(p1) => match sp_sha(s, p1) {
            None => None,
            Some((sha, p2)) => match sp_tag(s, p2, "\n"@) {
                None => None,
                Some(p3) => match sp_tag(s, p3, "parents "@) {
                    None => None,
                    Some(p4) => match sp_parents(s, p4) {
                        None => None,
                        Some((parents, p5)) => match sp_tag(s, p5, "\n"@) {
                            None => None,
                            Some(p6) => Some(((sha, parents), p6)),
                        },
                    },
                },
            },
        },
    }
}

/// The `author`, `email` and `date` lines.
pub open spec fn sp_signature(s: Seq<char>, pos: int) -> Option<
    ((Seq<char>, Seq<char>, Seq<char>), int),
> {
    match sp_tag(s, pos, "author "@) {
        None => None,
        Some(p1) => match sp_until(s, p1, "\n"@) {
            None => None,
            Some((author, p2)) => match sp_tag(s, p2, "\n"@) {
                None => None,
                Some(p3) => match sp_tag(s, p3, "email "@) {
                    None => None,
                    Some(p4) => match sp_until(s, p4, "\n"@) {
                        None => None,
                        Some((email, p5)) => match sp_tag(s, p5, "\n"@) {
                            None => None,
                            Some(p6) => match sp_tag(s, p6, "date "@) {
                                None => None,
                                Some(p7) => match sp_until(s, p7, "\n"@) {
                                    None => None,
                                    Some((date, p8)) => match sp_tag(s, p8, "\n"@) {
                                        None => None,
                                        Some(p9) => Some(((author, email, date), p9)),
                                    },
                                },
                            },
                        },
                    },
                },
            },
        },
    }
}

/// The `summary` line and the `description` body, which runs up to the
/// entry separator `"\0\0\n"` and leaves it unconsumed.
pub open spec fn sp_body(s: Seq<char>, pos: int) -> Option<((Seq<char>, Seq<char>), int)> {
    match sp_tag(s, pos, "summary "@) {
        None => None,
        Some(p1) => match sp_until(s, p1, "\n"@) {
            None => None,
            Some((summary, p2)) => match sp_tag(s, p2, "\n"@) {
                None => None,
                Some(p3) => match sp_tag(s, p3, "description "@) {
                    None => None,
                    Some(p4) => match sp_until(s, p4, "\u{0}\u{0}\n"@) {
                        None => None,
                        Some((description, p5)) => Some(((summary, description), p5)),
                    },
                },
            },
        },
    }
}

/// One whole log entry.
pub open spec fn sp_log_entry(s: Seq<char>, pos: int) -> Option<(SpecLogEntry, int)> {
    match sp_tree(s, pos) {
        None => None,
        Some(((sha, parents), p1)) => match sp_signature(s, p1) {
            None => None,
            Some(((author, email, date), p2)) => match sp_body(s, p2) {
                None => None,
                Some(((summary, description), p3)) => Some(
                    (SpecLogEntry { author, date, description, email, parents, sha, summary }, p3),
                ),
            },
        },
    }
}

/// The greedy separator-delimited entry list at `pos`. The list stops
/// before a separator whose following entry does not parse; a first
/// entry that does not parse gives the empty list.
pub open spec fn sp_log_entries(s: Seq<char>, pos: int) -> (Seq<SpecLogEntry>, int)
    decreases s.len() - pos,
{
    match sp_log_entry(s, pos) {
        None => (seq![], pos),
        Some((e, end)) => {
            let sep_end = end + "\u{0}\u{0}\n"@.len() as int;
            if pos < end && tag_at(s, end, "\u{0}\u{0}\n"@) && sp_log_entry(s, sep_end) is Some {
                let (rest, fin) = sp_log_entries(s, sep_end);
                (seq![e] + rest, fin)
            } else {
                (seq![e], end)
            }
        },
    }
}

/// A well-placed parent list always parses.
proof fn lemma_parent_list_some(s: Seq<char>, pos: int)
    requires
        0 <= pos,
        pos + 40 <= s.len(),
    ensures
        sp_parent_list(s, pos) is Some,
        sp_parent_list(s, pos) matches Some((_, end)) ==> pos < end <= s.len(),
    decreases s.len() - pos,
{
    let e = pos + 40;
    if e < s.len() && s[e] == ' ' && e + 1 + 40 <= s.len() {
        lemma_parent_list_some(s, e + 1);
    }
}

/// Parse the `parents` field at `pos`.
fn parse_parents(input: &str, pos: usize) -> (r: Option<(Vec<String>, usize)>)
    requires
        pos <= input@.len(),
    ensures
        match r {
            Some(v) => sp_parents(input@, pos as int) == Some((v.0.deep_view(), v.1 as int))
                && pos <= v.1 <= input@.len(),
            None => sp_parents(input@, pos as int) is None,
        },
{
    let len = input.unicode_len();
    if pos >= len {
        return None;
    }
    if input.get_char(pos) == '\n' {
        let empty: Vec<String> = Vec::new();
        proof {
            assert(empty.deep_view() =~= Seq::<Seq<char>>::empty());
        }
        return Some((empty, pos));
    }
    if len - pos < 40 {
        let empty: Vec<String> = Vec::new();
        proof {
            assert(empty.deep_view() =~= Seq::<Seq<char>>::empty());
        }
        return Some((empty, pos));
    }
    let mut parents: Vec<String> = Vec::new();
    let mut p: usize = pos;
    proof {
        lemma_parent_list_some(input@, pos as int);
        let (all, end) = sp_parent_list(input@, pos as int)->Some_0;
        assert(parents.deep_view() =~= Seq::<Seq<char>>::empty());
        assert(parents.deep_view() + all =~= all);
    }
    loop
        invariant_except_break
            pos <= p,
            p + 40 <= len,
            len == input@.len(),
            sp_parent_list(input@, pos as int) matches Some((all, end)) && {
                &&& sp_parent_list(input@, p as int) matches Some((rest, end2))
                &&& all == parents.deep_view() + rest
                &&& end == end2
            },
        ensures
            sp_parent_list(input@, pos as int) matches Some((all, end)) && all
                == parents.deep_view() && pos < end <= input@.len() && end == p,
        decreases input@.len() - p,
    {
        proof {
            lemma_parent_list_some(input@, p as int);
        }
        let sha = input.substring_char(p, p + 40).to_owned();
        let ghost old_parents = parents.deep_view();
        parents.push(sha);
        proof {
            assert(parents.deep_view() =~= old_parents.push(sha@));
        }
        let e = p + 40;
        if e < len && input.get_char(e) == ' ' && len - (e + 1) >= 40 {
            proof {
                lemma_parent_list_some(input@, e as int + 1);
                let (rest, end2) = sp_parent_list(input@, e as int + 1)->Some_0;
                assert(seq![sha@] + rest =~= parents.deep_view().skip(old_parents.len() as int)
                    + rest);
                let (all, end) = sp_parent_list(input@, pos as int)->Some_0;
                assert(old_parents + (seq![sha@] + rest) =~= parents.deep_view() + rest);
            }
            p = e + 1;
        } else {
            proof {
                let (all, end) = sp_parent_list(input@, pos as int)->Some_0;
                assert(sp_parent_list(input@, p as int) == Some((seq![sha@], e as int)));
                assert(old_parents + seq![sha@] =~= parents.deep_view());
                assert(all == parents.deep_view() + Seq::<Seq<char>>::empty() + seq![sha@]
                    || true);
                assert(all =~= old_parents + seq![sha@]);
            }
            p = e;
            break;
        }
    }
    Some((parents, p))
}

/// Parse the `sha` and `parents` lines at `pos`.
fn parse_tree(input: &str, pos: usize) -> (r: Option<(TreeInfo, usize)>)
    requires
        pos <= input@.len(),
    ensures
        match r {
            Some(v) => sp_tree(input@, pos as int) == Some(
                ((v.0.sha@, v.0.parents.deep_view()), v.1 as int),
            ) && pos < v.1 <= input@.len(),
            None => sp_tree(input@, pos as int) is None,
        },
{
    let p1 = match take_tag(input, pos, "sha ") {
        Some(p) => p,
        None => { return None; },
    };
    let (sha, p2) = match take_sha(input, p1) {
        Some(v) => v,
        None => { return None; },
    };
    let p3 = match take_tag(input, p2, "\n") {
        Some(p) => p,
        None => { return None; },
    };
    let p4 = match take_tag(input, p3, "parents ") {
        Some(p) => p,
        None => { return None; },
    };
    let (parents, p5) = match parse_parents(input, p4) {
        Some(v) => v,
        None => { return None; },
    };
    let p6 = match take_tag(input, p5, "\n") {
        Some(p) => p,
        None => { return None; },
    };
    Some((TreeInfo { sha, parents }, p6))
}

/// Parse the `author`, `email` and `date` lines at `pos`.
fn parse_signature(input: &str, pos: usize) -> (r: Option<(SignatureInfo, usize)>)
    requires
        pos <= input@.len(),
    ensures
        match r {
            Some(v) => sp_signature(input@, pos as int) == Some(
                ((v.0.author@, v.0.email@, v.0.date@), v.1 as int),
            ) && pos <= v.1 <= input@.len(),
            None => sp_signature(input@, pos as int) is None,
        },
{
    let p1 = match take_tag(input, pos, "author ") {
        Some(p) => p,
        None => { return None; },
    };
    let (author, p2) = match take_until(input, p1, "\n") {
        Some(v) => v,
        None => { return None; },
    };
    let p3 = match take_tag(input, p2, "\n") {
        Some(p) => p,
        None => { return None; },
    };
    let p4 = match take_tag(input, p3, "email ") {
        Some(p) => p,
        None => { return None; },
    };
    let (email, p5) = match take_until(input, p4, "\n") {
        Some(v) => v,
        None => { return None; },
    };
    let p6 = match take_tag(input, p5, "\n") {
        Some(p) => p,
        None => { return None; },
    };
    let p7 = match take_tag(input, p6, "date ") {
        Some(p) => p,
        None => { return None; },
    };
    let (date, p8) = match take_until(input, p7, "\n") {
        Some(v) => v,
        None => { return None; },
    };
    let p9 = match take_tag(input, p8, "\n") {
        Some(p) => p,
        None => { return None; },
    };
    Some((SignatureInfo { author, email, date }, p9))
}

/// Parse the `summary` line and the `description` body at `pos`.
fn parse_body(input: &str, pos: usize) -> (r: Option<(BodyInfo, usize)>)
    requires
        pos <= input@.len(),
    ensures
        match r {
            Some(v) => sp_body(input@, pos as int) == Some(
                ((v.0.summary@, v.0.description@), v.1 as int),
            ) && pos <= v.1 <= input@.len(),
            None => sp_body(input@, pos as int) is None,
        },
{
    let p1 = match take_tag(input, pos, "summary ") {
        Some(p) => p,
        None => { return None; },
    };
    let (summary, p2) = match take_until(input, p1, "\n") {
        Some(v) => v,
        None => { return None; },
    };
    let p3 = match take_tag(input, p2, "\n") {
        Some(p) => p,
        None => { return None; },
    };
    let p4 = match take_tag(input, p3, "description ") {
        Some(p) => p,
        None => { return None; },
    };
    let (description, p5) = match take_until(input, p4, "\u{0}\u{0}\n") {
        Some(v) => v,
        None => { return None; },
    };
    Some((BodyInfo { summary, description }, p5))
}

/// Parse one whole log entry at `pos`.
fn parse_log_entry(input: &str, pos: usize) -> (r: Option<(LogEntry, usize)>)
    requires
        pos <= input@.len(),
    ensures
        match r {
            Some(v) => sp_log_entry(input@, pos as int) == Some((v.0@, v.1 as int)) && pos < v.1
                <= input@.len(),
            None => sp_log_entry(input@, pos as int) is None,
        },
{
    let (tree, p1) = match parse_tree(input, pos) {
        Some(v) => v,
        None => { return None; },
    };
    let (signature, p2) = match parse_signature(input, p1) {
        Some(v) => v,
        None => { return None; },
    };
    let (body, p3) = match parse_body(input, p2) {
        Some(v) => v,
        None => { return None; },
    };
    Some(
        (
            LogEntry {
                author: signature.author,
                date: signature.date,
                description: body.description,
                email: signature.email,
                parents: tree.parents,
                sha: tree.sha,
                summary: body.summary,
            },
            p3,
        ),
    )
}

/// Parse a whole `git log` output into its entries.
///
/// The entry list is greedy and total, so the result is always `Ok`,
/// and text after the last well-formed entry is ignored. The `Result`
/// stands for callers that treat parsing as fallible.
pub fn parse_log(input: &str) -> (r: Result<Vec<LogEntry>, Error>)
    ensures
        r matches Ok(entries) && entries.deep_view() == sp_log_entries(input@, 0).0,
{
    let mut entries: Vec<LogEntry> = Vec::new();
    let mut pos: usize = 0;
    let len = input.unicode_len();
    loop
        invariant_except_break
            pos <= len,
            len == input@.len(),
            sp_log_entries(input@, 0).0 == entries.deep_view() + sp_log_entries(
                input@,
                pos as int,
            ).0,
        ensures
            entries.deep_view() == sp_log_entries(input@, 0).0,
        decreases input@.len() - pos,
    {
        let (entry, end) = match parse_log_entry(input, pos) {
            Some(v) => v,
            None => {
                proof {
                    assert(sp_log_entries(input@, pos as int).0 =~= Seq::<SpecLogEntry>::empty());
                    assert(entries.deep_view() =~= sp_log_entries(input@, 0).0);
                }
                break;
            },
        };
        let ghost old_entries = entries.deep_view();
        entries.push(entry);
        proof {
            assert(entries.deep_view() =~= old_entries.push(entry@));
        }
        let sep = match take_tag(input, end, "\u{0}\u{0}\n") {
            Some(p) => p,
            None => {
                proof {
                    assert(sp_log_entries(input@, pos as int).0 =~= seq![entry@]);
                    assert(entries.deep_view() =~= sp_log_entries(input@, 0).0);
                }
                break;
            },
        };
        let more = match parse_log_entry(input, sep) {
            Some(_) => true,
            None => false,
        };
        if more {
            proof {
                let tail = sp_log_entries(input@, sep as int).0;
                assert(sp_log_entries(input@, pos as int).0 =~= seq![entry@] + tail);
                assert(old_entries + (seq![entry@] + tail) =~= entries.deep_view() + tail);
            }
            pos = sep;
        } else {
            proof {
                assert(sp_log_entries(input@, pos as int).0 =~= seq![entry@]);
                assert(entries.deep_view() =~= sp_log_entries(input@, 0).0);
            }
            break;
        }
    }
    Ok(entries)
}

} // verus!
