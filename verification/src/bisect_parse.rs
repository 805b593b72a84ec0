//! Parser for the output of `git bisect` subcommands.
//!
//! Dispatch is on the first words of the text: `"Bisecting: "` opens a
//! *step* or a *reached-merge-base*, `"The "` opens a *found-range*,
//! `"sha "` opens a *visualize* listing, and anything else is read as a
//! bare 40-character commit id (*found-single*).
//!
//! Every grammar has a spec-level model (`sp_*`) over the input's
//! character sequence; the executable parser returns exactly what the
//! model says.

use vstd::prelude::*;
use crate::error::{Error, ProcessError};
use crate::parse_util::{
    dec_str, is_radix_digit, lemma_dec_str_chars, lemma_dec_str_value, lemma_digit_run_end_is,
    skip_char, sp_digits, sp_opt_char, sp_sha, sp_tag, tag_at, tag_matches_at, take_digits,
    take_sha, take_tag,
};

verus! {

/// One bisect round: the commit under test and the remaining work.
#[derive(Debug, Clone, PartialEq)]
pub struct BisectStep {
    pub current_commit_sha: String,
    pub num_revisions_left: u32,
    pub num_steps_left: u32,
}

/// The bisection must test a merge base next.
#[derive(Debug, Clone, PartialEq)]
pub struct BisectReachedMergeBase {
    pub merge_base_sha: String,
}

/// The bug was fixed between two commits.
#[derive(Debug, Clone, PartialEq)]
pub struct BisectFoundRange {
    pub bad_commit_sha: String,
    pub good_commit_sha: String,
}

/// The first bad commit.
#[derive(Debug, Clone, PartialEq)]
pub struct BisectFoundSingle {
    pub bad_commit_sha: String,
}

/// A finished bisection, either form.
#[derive(Debug, Clone, PartialEq)]
pub enum BisectFinish {
    FoundRange(BisectFoundRange),
    FoundSingle(BisectFoundSingle),
}

/// The commits listed by `git bisect visualize`.
#[derive(Debug, Clone, PartialEq)]
pub struct BisectVisualize {
    pub shas: Vec<String>,
}

/// Any parsed bisect output.
#[derive(Debug, Clone, PartialEq)]
pub enum BisectOutput {
    Finish(BisectFinish),
    ReachedMergeBase(BisectReachedMergeBase),
    Step(BisectStep),
    Visualize(BisectVisualize),
}

/// Spec-level value of a parsed bisect output.
pub ghost enum SpecBisect {
    Step { revs: nat, steps: nat, sha: Seq<char> },
    ReachedMergeBase { sha: Seq<char> },
    FoundRange { bad: Seq<char>, good: Seq<char> },
    FoundSingle { bad: Seq<char> },
    Visualize { shas: Seq<Seq<char>> },
}

impl View for BisectFinish {
    type V = SpecBisect;

    open spec fn view(&self) -> SpecBisect {
        match self {
            BisectFinish::FoundRange(fr) => SpecBisect::FoundRange {
                bad: fr.bad_commit_sha@,
                good: fr.good_commit_sha@,
            },
            BisectFinish::FoundSingle(fs) => SpecBisect::FoundSingle { bad: fs.bad_commit_sha@ },
        }
    }
}

impl View for BisectOutput {
    type V = SpecBisect;

    open spec fn view(&self) -> SpecBisect {
        match self {
            BisectOutput::Step(st) => SpecBisect::Step {
                revs: st.num_revisions_left as nat,
                steps: st.num_steps_left as nat,
                sha: st.current_commit_sha@,
            },
            BisectOutput::ReachedMergeBase(r) => SpecBisect::ReachedMergeBase {
                sha: r.merge_base_sha@,
            },
            BisectOutput::Finish(BisectFinish::FoundRange(fr)) => SpecBisect::FoundRange {
                bad: fr.bad_commit_sha@,
                good: fr.good_commit_sha@,
            },
            BisectOutput::Finish(BisectFinish::FoundSingle(fs)) => SpecBisect::FoundSingle {
                bad: fs.bad_commit_sha@,
            },
            BisectOutput::Visualize(v) => SpecBisect::Visualize { shas: v.shas.deep_view() },
        }
    }
}

/// The *step* grammar, read at `pos`:
/// `<digits> " revision" ["s"] " left to test after this (roughly "
/// <digits> " step" ["s"] ")\n[" <40 chars>`.
pub open spec fn sp_step(s: Seq<char>, pos: int) -> Option<(nat, nat, Seq<char>)> {
    match sp_digits(s, pos) {
        None => None,
        Some((revs, p1)) => match sp_tag(s, p1, " revision"@) {
            None => None,
            Some(p2) => {
                let p3 = sp_opt_char(s, p2, 's');
                match sp_tag(s, p3, " left to test after this (roughly "@) {
                    None => None,
                    Some(p4) => match sp_digits(s, p4) {
                        None => None,
                        Some((steps, p5)) => match sp_tag(s, p5, " step"@) {
                            None => None,
                            Some(p6) => {
                                let p7 = sp_opt_char(s, p6, 's');
                                match sp_tag(s, p7, ")\n["@) {
                                    None => None,
                                    Some(p8) => match sp_sha(s, p8) {
                                        None => None,
                                        Some((sha, _)) => Some((revs, steps, sha)),
                                    },
                                }
                            },
                        },
                    },
                }
            },
        },
    }
}

/// The *reached-merge-base* grammar, read at `pos`:
/// `"a merge base must be tested\n[" <40 chars>`.
pub open spec fn sp_reached_merge_base(s: Seq<char>, pos: int) -> Option<Seq<char>> {
    match sp_tag(s, pos, "a merge base must be tested\n["@) {
        None => None,
        Some(p1) => match sp_sha(s, p1) {
            None => None,
            Some((sha, _)) => Some(sha),
        },
    }
}

/// The *found-range* grammar, read at `pos`:
/// `"merge base " <40 chars> " is bad.\nThis means the bug has been fixed
/// between " <40 chars> " and [" <40 chars>`. The first commit id is
/// discarded; the result is the (bad, good) pair.
pub open spec fn sp_found_range(s: Seq<char>, pos: int) -> Option<(Seq<char>, Seq<char>)> {
    match sp_tag(s, pos, "merge base "@) {
        None => None,
        Some(p1) => match sp_sha(s, p1) {
            None => None,
            Some((_, p2)) => match sp_tag(s, p2, " is bad.\nThis means the bug has been fixed between "@) {
                None => None,
                Some(p3) => match sp_sha(s, p3) {
                    None => None,
                    Some((bad, p4)) => match sp_tag(s, p4, " and ["@) {
                        None => None,
                        Some(p5) => match sp_sha(s, p5) {
                            None => None,
                            Some((good, _)) => Some((bad, good)),
                        },
                    },
                },
            },
        },
    }
}

/// Whether a visualize line (`"sha " <40 chars>`) can be read at `pos`.
pub open spec fn sp_vis_entry_ok(s: Seq<char>, pos: int) -> bool {
    tag_at(s, pos, "sha "@) && pos + "sha "@.len() + 40 <= s.len()
}

/// The greedy newline-separated list of visualize lines at `pos`.
/// The list stops before a separator whose following line does not parse.
pub open spec fn sp_vis_shas(s: Seq<char>, pos: int) -> Seq<Seq<char>>
    decreases s.len() - pos,
{
    if !sp_vis_entry_ok(s, pos) {
        seq![]
    } else {
        let sha_start = pos + "sha "@.len() as int;
        let sha = s.subrange(sha_start, sha_start + 40);
        let e = sha_start + 40;
        if e < s.len() && s[e] == '\n' && sp_vis_entry_ok(s, e + 1) {
            seq![sha] + sp_vis_shas(s, e + 1)
        } else {
            seq![sha]
        }
    }
}

/// The whole bisect-output grammar, dispatched on the leading words.
pub open spec fn sp_parse_bisect(s: Seq<char>) -> Option<SpecBisect> {
    if tag_at(s, 0, "Bisecting: "@) {
        let p = "Bisecting: "@.len() as int;
        match sp_step(s, p) {
            Some((revs, steps, sha)) => Some(SpecBisect::Step { revs, steps, sha }),
            None => match sp_reached_merge_base(s, p) {
                Some(sha) => Some(SpecBisect::ReachedMergeBase { sha }),
                None => None,
            },
        }
    } else if tag_at(s, 0, "The "@) {
        match sp_found_range(s, "The "@.len() as int) {
            Some((bad, good)) => Some(SpecBisect::FoundRange { bad, good }),
            None => None,
        }
    } else if tag_at(s, 0, "sha "@) {
        Some(SpecBisect::Visualize { shas: sp_vis_shas(s, 0) })
    } else {
        match sp_sha(s, 0) {
            Some((bad, _)) => Some(SpecBisect::FoundSingle { bad }),
            None => None,
        }
    }
}

/// Spec-level re-emission of a bisect *step*, in the plural form current
/// `git` prints.
pub open spec fn sp_render_step(revs: nat, steps: nat, sha: Seq<char>) -> Seq<char> {
    "Bisecting: "@ + dec_str(revs) + " revisions left to test after this (roughly "@ + dec_str(
        steps,
    ) + " steps)\n["@ + sha
}

/// Parsing a re-emitted *step* preserves the commit id, the revision
/// count and the step count exactly.
pub proof fn lemma_bisect_step_round_trip(revs: nat, steps: nat, sha: Seq<char>)
    requires
        revs <= u32::MAX,
        steps <= u32::MAX,
        sha.len() == 40,
    ensures
        sp_parse_bisect(sp_render_step(revs, steps, sha)) == Some(
            SpecBisect::Step { revs, steps, sha },
        ),
{
    reveal_strlit("Bisecting: ");
    reveal_strlit(" revisions left to test after this (roughly ");
    reveal_strlit(" steps)\n[");
    reveal_strlit(" revision");
    reveal_strlit(" left to test after this (roughly ");
    reveal_strlit(" step");
    reveal_strlit(")\n[");
    lemma_dec_str_chars(revs);
    lemma_dec_str_chars(steps);
    lemma_dec_str_value(revs);
    lemma_dec_str_value(steps);
    let a = "Bisecting: "@;
    let d1 = dec_str(revs);
    let m = " revisions left to test after this (roughly "@;
    let d2 = dec_str(steps);
    let z = " steps)\n["@;
    let r = sp_render_step(revs, steps, sha);
    assert(a.len() == 11);
    assert(m.len() == 44);
    assert(z.len() == 9);
    let o1 = a.len() as int;
    let o2 = o1 + d1.len() as int;
    let o3 = o2 + m.len() as int;
    let o4 = o3 + d2.len() as int;
    let o5 = o4 + z.len() as int;
    assert(r.len() == o5 + 40);
    assert(forall|i: int| 0 <= i < o1 ==> r[i] == a[i]);
    assert(forall|i: int| o1 <= i < o2 ==> r[i] == d1[i - o1]);
    assert(forall|i: int| o2 <= i < o3 ==> r[i] == m[i - o2]);
    assert(forall|i: int| o3 <= i < o4 ==> r[i] == d2[i - o3]);
    assert(forall|i: int| o4 <= i < o5 ==> r[i] == z[i - o4]);
    assert(forall|i: int| o5 <= i < r.len() ==> r[i] == sha[i - o5]);
    // the opening literal
    assert(r.subrange(0, o1) =~= a);
    assert(tag_at(r, 0, a));
    // the revision count
    assert(forall|i: int| o1 <= i < o2 ==> is_radix_digit(r[i], 10));
    assert(m[0] == ' ' && !is_radix_digit(r[o2], 10));
    lemma_digit_run_end_is(r, o1, o2, 10);
    assert(r.subrange(o1, o2) =~= d1);
    assert(sp_digits(r, o1) == Some((revs, o2)));
    // " revision" then the plural 's'
    assert(" revision"@.len() == 9);
    assert(r.subrange(o2, o2 + 9) =~= " revision"@);
    assert(sp_tag(r, o2, " revision"@) == Some(o2 + 9));
    assert(m[9] == 's' && r[o2 + 9] == 's');
    assert(sp_opt_char(r, o2 + 9, 's') == o2 + 10);
    // the middle literal
    assert(" left to test after this (roughly "@.len() == 34);
    assert(r.subrange(o2 + 10, o3) =~= " left to test after this (roughly "@);
    assert(sp_tag(r, o2 + 10, " left to test after this (roughly "@) == Some(o3));
    // the step count
    assert(forall|i: int| o3 <= i < o4 ==> is_radix_digit(r[i], 10));
    assert(z[0] == ' ' && !is_radix_digit(r[o4], 10));
    lemma_digit_run_end_is(r, o3, o4, 10);
    assert(r.subrange(o3, o4) =~= d2);
    assert(sp_digits(r, o3) == Some((steps, o4)));
    // " step", the plural 's', and ")\n["
    assert(" step"@.len() == 5);
    assert(r.subrange(o4, o4 + 5) =~= " step"@);
    assert(sp_tag(r, o4, " step"@) == Some(o4 + 5));
    assert(z[5] == 's' && r[o4 + 5] == 's');
    assert(sp_opt_char(r, o4 + 5, 's') == o4 + 6);
    assert(")\n["@.len() == 3);
    assert(r.subrange(o4 + 6, o5) =~= ")\n["@);
    assert(sp_tag(r, o4 + 6, ")\n["@) == Some(o5));
    // the commit id
    assert(r.subrange(o5, o5 + 40) =~= sha);
    assert(sp_sha(r, o5) == Some((sha, o5 + 40)));
    assert(sp_step(r, o1) == Some((revs, steps, sha)));
}

/// Parse the *step* grammar at `pos`.
fn parse_step_at(input: &str, pos: usize) -> (r: Option<BisectStep>)
    requires
        pos <= input@.len(),
    ensures
        match r {
            Some(st) => sp_step(input@, pos as int) == Some(
                (st.num_revisions_left as nat, st.num_steps_left as nat, st.current_commit_sha@),
            ),
            None => sp_step(input@, pos as int) is None,
        },
{
    let (revs, p1) = match take_digits(input, pos) {
        Some(v) => v,
        None => { return None; },
    };
    let p2 = match take_tag(input, p1, " revision") {
        Some(p) => p,
        None => { return None; },
    };
    let p3 = skip_char(input, p2, 's');
    let p4 = match take_tag(input, p3, " left to test after this (roughly ") {
        Some(p) => p,
        None => { return None; },
    };
    let (steps, p5) = match take_digits(input, p4) {
        Some(v) => v,
        None => { return None; },
    };
    let p6 = match take_tag(input, p5, " step") {
        Some(p) => p,
        None => { return None; },
    };
    let p7 = skip_char(input, p6, 's');
    let p8 = match take_tag(input, p7, ")\n[") {
        Some(p) => p,
        None => { return None; },
    };
    let (sha, _) = match take_sha(input, p8) {
        Some(v) => v,
        None => { return None; },
    };
    Some(BisectStep { current_commit_sha: sha, num_revisions_left: revs, num_steps_left: steps })
}

/// Parse the *reached-merge-base* grammar at `pos`.
fn parse_reached_merge_base_at(input: &str, pos: usize) -> (r: Option<BisectReachedMergeBase>)
    requires
        pos <= input@.len(),
    ensures
        match r {
            Some(m) => sp_reached_merge_base(input@, pos as int) == Some(m.merge_base_sha@),
            None => sp_reached_merge_base(input@, pos as int) is None,
        },
{
    let p1 = match take_tag(input, pos, "a merge base must be tested\n[") {
        Some(p) => p,
        None => { return None; },
    };
    let (sha, _) = match take_sha(input, p1) {
        Some(v) => v,
        None => { return None; },
    };
    Some(BisectReachedMergeBase { merge_base_sha: sha })
}

/// Parse the *found-range* grammar at `pos`.
fn parse_found_range_at(input: &str, pos: usize) -> (r: Option<BisectFoundRange>)
    requires
        pos <= input@.len(),
    ensures
        match r {
            Some(fr) => sp_found_range(input@, pos as int) == Some(
                (fr.bad_commit_sha@, fr.good_commit_sha@),
            ),
            None => sp_found_range(input@, pos as int) is None,
        },
{
    let p1 = match take_tag(input, pos, "merge base ") {
        Some(p) => p,
        None => { return None; },
    };
    let (_, p2) = match take_sha(input, p1) {
        Some(v) => v,
        None => { return None; },
    };
    let p3 = match take_tag(input, p2, " is bad.\nThis means the bug has been fixed between ") {
        Some(p) => p,
        None => { return None; },
    };
    let (bad, p4) = match take_sha(input, p3) {
        Some(v) => v,
        None => { return None; },
    };
    let p5 = match take_tag(input, p4, " and [") {
        Some(p) => p,
        None => { return None; },
    };
    let (good, _) = match take_sha(input, p5) {
        Some(v) => v,
        None => { return None; },
    };
    Some(BisectFoundRange { bad_commit_sha: bad, good_commit_sha: good })
}

/// Parse the greedy visualize listing from the start of `input`.
fn parse_visualize(input: &str) -> (r: Vec<String>)
    ensures
        r.deep_view() == sp_vis_shas(input@, 0),
{
    let mut shas: Vec<String> = Vec::new();
    let tag_len = "sha ".unicode_len();
    let len = input.unicode_len();
    let mut pos: usize = 0;
    loop
        invariant_except_break
            pos <= input@.len(),
            tag_len == "sha "@.len(),
            len == input@.len(),
            sp_vis_shas(input@, 0) == shas.deep_view() + sp_vis_shas(input@, pos as int),
        ensures
            shas.deep_view() == sp_vis_shas(input@, 0),
        decreases input@.len() - pos,
    {
        let entry_ok = tag_matches_at(input, pos, "sha ") && len - (pos + tag_len) >= 40;
        if !entry_ok {
            proof {
                assert(!sp_vis_entry_ok(input@, pos as int));
                assert(sp_vis_shas(input@, pos as int) =~= Seq::<Seq<char>>::empty());
                assert(shas.deep_view() =~= sp_vis_shas(input@, 0));
            }
            break;
        }
        let sha_start = pos + tag_len;
        let sha = input.substring_char(sha_start, sha_start + 40).to_owned();
        let ghost old_shas = shas.deep_view();
        shas.push(sha);
        proof {
            assert(shas.deep_view() =~= old_shas.push(sha@));
        }
        let e = sha_start + 40;
        let more = e < len && input.get_char(e) == '\n' && tag_matches_at(input, e + 1, "sha ")
            && len - (e + 1 + tag_len) >= 40 && e + 1 + tag_len <= len;
        if more {
            proof {
                assert(sp_vis_entry_ok(input@, e + 1));
                assert(sp_vis_shas(input@, pos as int) =~= seq![sha@] + sp_vis_shas(
                    input@,
                    e as int + 1,
                ));
                assert(sp_vis_shas(input@, 0) =~= shas.deep_view() + sp_vis_shas(
                    input@,
                    e as int + 1,
                ));
            }
            pos = e + 1;
        } else {
            proof {
                assert(sp_vis_shas(input@, pos as int) =~= seq![sha@]);
                assert(shas.deep_view() =~= sp_vis_shas(input@, 0));
            }
            break;
        }
    }
    shas
}

/// Parse one bisect output. Returns exactly what the grammar model
/// (`sp_parse_bisect`) gives, or `Process(Parsing)` when the model
/// rejects the text.
pub fn parse_bisect(input: &str) -> (r: Result<BisectOutput, Error>)
    ensures
        match r {
            Ok(out) => sp_parse_bisect(input@) == Some(out@),
            Err(e) => sp_parse_bisect(input@) is None && e == Error::Process(
                ProcessError::Parsing,
            ),
        },
{
    if let Some(p) = take_tag(input, 0, "Bisecting: ") {
        if let Some(st) = parse_step_at(input, p) {
            return Ok(BisectOutput::Step(st));
        }
        if let Some(m) = parse_reached_merge_base_at(input, p) {
            return Ok(BisectOutput::ReachedMergeBase(m));
        }
        return Err(Error::Process(ProcessError::Parsing));
    }
    if let Some(p) = take_tag(input, 0, "The ") {
        if let Some(fr) = parse_found_range_at(input, p) {
            return Ok(BisectOutput::Finish(BisectFinish::FoundRange(fr)));
        }
        return Err(Error::Process(ProcessError::Parsing));
    }
    if tag_matches_at(input, 0, "sha ") {
        let shas = parse_visualize(input);
        return Ok(BisectOutput::Visualize(BisectVisualize { shas }));
    }
    match take_sha(input, 0) {
        Some((bad, _)) => Ok(BisectOutput::Finish(BisectFinish::FoundSingle(
            BisectFoundSingle { bad_commit_sha: bad },
        ))),
        None => Err(Error::Process(ProcessError::Parsing)),
    }
}

} // verus!
