//! Parser and classifier for `git status --porcelain=v2` output.
//!
//! The input is a sequence of lines, each opened by a two-character tag
//! (`1 ` ordinary, `2 ` rename/copy, `u ` unmerged, `! ` untracked,
//! `? ` ignored) and closed by a newline, terminated by a sentinel NUL.
//! Parsed entries are then classified into four output buckets:
//! conflicts, ignored, staged and unstaged.
//!
//! Every grammar has a spec-level model (`sp_*`), and the classification
//! has a spec-level account (`contribution`, `classify`); the executable
//! functions return exactly what the models say.

use vstd::prelude::*;
use crate::error::{Error, ProcessError};
use crate::parse_util::{
    sp_oct, sp_sha, sp_tag, sp_until, tag_at, take_oct, take_sha, take_tag, take_until,
};

verus! {

/// One porcelain status code.
#[derive(Debug, Clone, Copy, PartialEq, Eq, Structural)]
pub enum Status {
    Added,
    Modified,
    Deleted,
    Renamed,
    Copied,
    Untracked,
    Unmerged,
}

/// The three file modes of an ordinary or rename/copy entry.
#[derive(Debug, Clone, Copy, PartialEq, Eq, Structural)]
pub struct FileModeStatus {
    pub head: u32,
    pub index: u32,
    pub worktree: u32,
}

/// The four file modes of an unmerged entry.
#[derive(Debug, Clone, Copy, PartialEq, Eq, Structural)]
pub struct UnmergedFileModeStatus {
    pub stage_1: u32,
    pub stage_2: u32,
    pub stage_3: u32,
    pub worktree: u32,
}

/// Whether a rename/copy score measures a rename or a copy.
#[derive(Debug, Clone, Copy, PartialEq, Eq, Structural)]
pub enum ScoreType {
    Renamed,
    Copied,
}

/// A rename/copy similarity score.
#[derive(Debug, Clone, Copy, PartialEq, Eq, Structural)]
pub struct Score {
    pub score_type: ScoreType,
    pub percentage: u32,
}

/// The submodule state of an entry, when the entry is a submodule.
#[derive(Debug, Clone, Copy, PartialEq, Eq, Structural)]
pub struct SubmoduleStatus {
    pub commit_changed: bool,
    pub has_tracked_changes: bool,
    pub has_untracked_changes: bool,
}

/// The head and index object ids of an entry.
#[derive(Debug, Clone, PartialEq)]
pub struct StatusOids {
    pub head: String,
    pub index: String,
}

/// The three stage object ids of an unmerged entry.
#[derive(Debug, Clone, PartialEq)]
pub struct UnmergedStatusOids {
    pub stage_1: String,
    pub stage_2: String,
    pub stage_3: String,
}

/// An ordinary (`1 `) entry.
#[derive(Debug, Clone, PartialEq)]
pub struct OrdinaryStatusEntry {
    pub staged_status: Option<Status>,
    pub unstaged_status: Option<Status>,
    pub submodule_status: Option<SubmoduleStatus>,
    pub file_mode: FileModeStatus,
    pub oids: StatusOids,
    pub path: String,
}

/// A rename/copy (`2 `) entry.
#[derive(Debug, Clone, PartialEq)]
pub struct CopiedOrRenamedStatusEntry {
    pub staged_status: Option<Status>,
    pub unstaged_status: Option<Status>,
    pub submodule_status: Option<SubmoduleStatus>,
    pub file_mode: FileModeStatus,
    pub oids: StatusOids,
    pub score: Score,
    pub path: String,
    pub original_path: String,
}

/// An unmerged (`u `) entry.
#[derive(Debug, Clone, PartialEq)]
pub struct UnmergedStatusEntry {
    pub staged_status: Status,
    pub unstaged_status: Status,
    pub submodule_status: Option<SubmoduleStatus>,
    pub file_mode: UnmergedFileModeStatus,
    pub oids: UnmergedStatusOids,
    pub path: String,
}

/// An untracked (`! `) entry.
#[derive(Debug, Clone, PartialEq)]
pub struct UntrackedStatusEntry {
    pub path: String,
}

/// An ignored (`? `) entry.
#[derive(Debug, Clone, PartialEq)]
pub struct IgnoredStatusEntry {
    pub path: String,
}

/// Any parsed status line.
#[derive(Debug, Clone, PartialEq)]
pub enum StatusEntry {
    OrdinaryStatusEntry(OrdinaryStatusEntry),
    CopiedOrRenamedStatusEntry(CopiedOrRenamedStatusEntry),
    UnmergedStatusEntry(UnmergedStatusEntry),
    UntrackedStatusEntry(UntrackedStatusEntry),
    IgnoredStatusEntry(IgnoredStatusEntry),
}

/// Spec-level object-id pair.
pub ghost struct SpecStatusOids {
    pub head: Seq<char>,
    pub index: Seq<char>,
}

/// Spec-level stage object ids.
pub ghost struct SpecUnmergedOids {
    pub stage_1: Seq<char>,
    pub stage_2: Seq<char>,
    pub stage_3: Seq<char>,
}

/// Spec-level ordinary entry.
pub ghost struct SpecOrdinaryEntry {
    pub staged_status: Option<Status>,
    pub unstaged_status: Option<Status>,
    pub submodule_status: Option<SubmoduleStatus>,
    pub file_mode: FileModeStatus,
    pub oids: SpecStatusOids,
    pub path: Seq<char>,
}

/// Spec-level rename/copy entry.
pub ghost struct SpecRenamedEntry {
    pub staged_status: Option<Status>,
    pub unstaged_status: Option<Status>,
    pub submodule_status: Option<SubmoduleStatus>,
    pub file_mode: FileModeStatus,
    pub oids: SpecStatusOids,
    pub score: Score,
    pub path: Seq<char>,
    pub original_path: Seq<char>,
}

/// Spec-level unmerged entry.
pub ghost struct SpecUnmergedEntry {
    pub staged_status: Status,
    pub unstaged_status: Status,
    pub submodule_status: Option<SubmoduleStatus>,
    pub file_mode: UnmergedFileModeStatus,
    pub oids: SpecUnmergedOids,
    pub path: Seq<char>,
}

/// Spec-level value of any status line.
pub ghost enum SpecStatusEntry {
    Ordinary(SpecOrdinaryEntry),
    CopiedOrRenamed(SpecRenamedEntry),
    Unmerged(SpecUnmergedEntry),
    Untracked(Seq<char>),
    Ignored(Seq<char>),
}

impl View for StatusOids {
    type V = SpecStatusOids;

    open spec fn view(&self) -> SpecStatusOids {
        SpecStatusOids { head: self.head@, index: self.index@ }
    }
}

impl View for UnmergedStatusOids {
    type V = SpecUnmergedOids;

    open spec fn view(&self) -> SpecUnmergedOids {
        SpecUnmergedOids { stage_1: self.stage_1@, stage_2: self.stage_2@, stage_3: self.stage_3@ }
    }
}

impl View for OrdinaryStatusEntry {
    type V = SpecOrdinaryEntry;

    open spec fn view(&self) -> SpecOrdinaryEntry {
        SpecOrdinaryEntry {
            staged_status: self.staged_status,
            unstaged_status: self.unstaged_status,
            submodule_status: self.submodule_status,
            file_mode: self.file_mode,
            oids: self.oids@,
            path: self.path@,
        }
    }
}

impl View for CopiedOrRenamedStatusEntry {
    type V = SpecRenamedEntry;

    open spec fn view(&self) -> SpecRenamedEntry {
        SpecRenamedEntry {
            staged_status: self.staged_status,
            unstaged_status: self.unstaged_status,
            submodule_status: self.submodule_status,
            file_mode: self.file_mode,
            oids: self.oids@,
            score: self.score,
            path: self.path@,
            original_path: self.original_path@,
        }
    }
}

impl View for UnmergedStatusEntry {
    type V = SpecUnmergedEntry;

    open spec fn view(&self) -> SpecUnmergedEntry {
        SpecUnmergedEntry {
            staged_status: self.staged_status,
            unstaged_status: self.unstaged_status,
            submodule_status: self.submodule_status,
            file_mode: self.file_mode,
            oids: self.oids@,
            path: self.path@,
        }
    }
}

impl View for StatusEntry {
    type V = SpecStatusEntry;

    open spec fn view(&self) -> SpecStatusEntry {
        match self {
            StatusEntry::OrdinaryStatusEntry(e) => SpecStatusEntry::Ordinary(e@),
            StatusEntry::CopiedOrRenamedStatusEntry(e) => SpecStatusEntry::CopiedOrRenamed(e@),
            StatusEntry::UnmergedStatusEntry(e) => SpecStatusEntry::Unmerged(e@),
            StatusEntry::UntrackedStatusEntry(e) => SpecStatusEntry::Untracked(e.path@),
            StatusEntry::IgnoredStatusEntry(e) => SpecStatusEntry::Ignored(e.path@),
        }
    }
}

impl DeepView for StatusEntry {
    type V = SpecStatusEntry;

    open spec fn deep_view(&self) -> SpecStatusEntry {
        self.view()
    }
}

/// One of the two status-code columns of an ordinary or rename/copy
/// line: a known code, or `None` for `.`.
pub open spec fn sp_xy(s: Seq<char>, pos: int) -> Option<(Option<Status>, int)> {
    if !(0 <= pos < s.len()) {
        None
    } else if s[pos] == 'M' {
        Some((Some(Status::Modified), pos + 1))
    } else if s[pos] == 'A' {
        Some((Some(Status::Added), pos + 1))
    } else if s[pos] == 'D' {
        Some((Some(Status::Deleted), pos + 1))
    } else if s[pos] == 'R' {
        Some((Some(Status::Renamed), pos + 1))
    } else if s[pos] == 'C' {
        Some((Some(Status::Copied), pos + 1))
    } else if s[pos] == '?' {
        Some((Some(Status::Untracked), pos + 1))
    } else if s[pos] == '.' {
        Some((None, pos + 1))
    } else {
        None
    }
}

/// One status-code column of an unmerged line: `A`, `D` or `U` only.
pub open spec fn sp_unmerged_xy(s: Seq<char>, pos: int) -> Option<(Status, int)> {
    if !(0 <= pos < s.len()) {
        None
    } else if s[pos] == 'A' {
        Some((Status::Added, pos + 1))
    } else if s[pos] == 'D' {
        Some((Status::Deleted, pos + 1))
    } else if s[pos] == 'U' {
        Some((Status::Unmerged, pos + 1))
    } else {
        None
    }
}

/// The four-character submodule field: `N` followed by any three
/// characters means no submodule; `S` followed by `C|.`, `M|.`, `U|.`
/// gives the submodule state.
pub open spec fn sp_submodule(s: Seq<char>, pos: int) -> Option<(Option<SubmoduleStatus>, int)> {
    if !(0 <= pos && pos + 4 <= s.len()) {
        None
    } else if s[pos] == 'S' {
        if (s[pos + 1] == 'C' || s[pos + 1] == '.') && (s[pos + 2] == 'M' || s[pos + 2] == '.') && (
        s[pos + 3] == 'U' || s[pos + 3] == '.') {
            Some(
                (
                    Some(
                        SubmoduleStatus {
                            commit_changed: s[pos + 1] == 'C',
                            has_tracked_changes: s[pos + 2] == 'M',
                            has_untracked_changes: s[pos + 3] == 'U',
                        },
                    ),
                    pos + 4,
                ),
            )
        } else {
            None
        }
    } else if s[pos] == 'N' {
        Some((None, pos + 4))
    } else {
        None
    }
}

/// Three space-separated octal file modes.
pub open spec fn sp_file_mode(s: Seq<char>, pos: int) -> Option<(FileModeStatus, int)> {
    match sp_oct(s, pos) {
        None => None,
        Some((head, p1)) => match sp_tag(s, p1, " "@) {
            None => None,
            Some(p2) => match sp_oct(s, p2) {
                None => None,
                Some((index, p3)) => match sp_tag(s, p3, " "@) {
                    None => None,
                    Some(p4) => match sp_oct(s, p4) {
                        None => None,
                        Some((worktree, p5)) => Some(
                            (
                                FileModeStatus {
                                    head: head as u32,
                                    index: index as u32,
                                    worktree: worktree as u32,
                                },
                                p5,
                            ),
                        ),
                    },
                },
            },
        },
    }
}

/// Four space-separated octal file modes.
pub open spec fn sp_unmerged_file_mode(s: Seq<char>, pos: int) -> Option<
    (UnmergedFileModeStatus, int),
> {
    match sp_oct(s, pos) {
        None => None,
        Some((stage_1, p1)) => match sp_tag(s, p1, " "@) {
            None => None,
            Some(p2) => match sp_oct(s, p2) {
                None => None,
                Some((stage_2, p3)) => match sp_tag(s, p3, " "@) {
                    None => None,
                    Some(p4) => match sp_oct(s, p4) {
                        None => None,
                        Some((stage_3, p5)) => match sp_tag(s, p5, " "@) {
                            None => None,
                            Some(p6) => match sp_oct(s, p6) {
                                None => None,
                                Some((worktree, p7)) => Some(
                                    (
                                        UnmergedFileModeStatus {
                                            stage_1: stage_1 as u32,
                                            stage_2: stage_2 as u32,
                                            stage_3: stage_3 as u32,
                                            worktree: worktree as u32,
                                        },
                                        p7,
                                    ),
                                ),
                            },
                        },
                    },
                },
            },
        },
    }
}

/// A rename/copy score: `R` or `C` then a decimal percentage.
pub open spec fn sp_score(s: Seq<char>, pos: int) -> Option<(Score, int)> {
    if !(0 <= pos < s.len()) {
        None
    } else {
        let score_type = if s[pos] == 'R' {
            Some(ScoreType::Renamed)
        } else if s[pos] == 'C' {
            Some(ScoreType::Copied)
        } else {
            None
        };
        match score_type {
            None => None,
            Some(st) => match crate::parse_util::sp_digits(s, pos + 1) {
                None => None,
                Some((percentage, p1)) => Some(
                    (Score { score_type: st, percentage: percentage as u32 }, p1),
                ),
            },
        }
    }
}

/// The head and index object ids, space-separated.
pub open spec fn sp_oids(s: Seq<char>, pos: int) -> Option<(SpecStatusOids, int)> {
    match sp_sha(s, pos) {
        None => None,
        Some((head, p1)) => match sp_tag(s, p1, " "@) {
            None => None,
            Some(p2) => match sp_sha(s, p2) {
                None => None,
                Some((index, p3)) => Some((SpecStatusOids { head, index }, p3)),
            },
        },
    }
}

/// The three stage object ids, space-separated.
pub open spec fn sp_unmerged_oids(s: Seq<char>, pos: int) -> Option<(SpecUnmergedOids, int)> {
    match sp_sha(s, pos) {
        None => None,
        Some((stage_1, p1)) => match sp_tag(s, p1, " "@) {
            None => None,
            Some(p2) => match sp_sha(s, p2) {
                None => None,
                Some((stage_2, p3)) => match sp_tag(s, p3, " "@) {
                    None => None,
                    Some(p4) => match sp_sha(s, p4) {
                        None => None,
                        Some((stage_3, p5)) => Some(
                            (SpecUnmergedOids { stage_1, stage_2, stage_3 }, p5),
                        ),
                    },
                },
            },
        },
    }
}

/// An ordinary line after its `1 ` tag:
/// `XY sub modes oids path`, the path running to the newline.
pub open spec fn sp_ordinary(s: Seq<char>, pos: int) -> Option<(SpecOrdinaryEntry, int)> {
    match sp_xy(s, pos) {
        None => None,
        Some((staged_status, p1)) => match sp_xy(s, p1) {
            None => None,
            Some((unstaged_status, p2)) => match sp_tag(s, p2, " "@) {
                None => None,
                Some(p3) => match sp_submodule(s, p3) {
                    None => None,
                    Some((submodule_status, p4)) => match sp_tag(s, p4, " "@) {
                        None => None,
                        Some(p5) => match sp_file_mode(s, p5) {
                            None => None,
                            Some((file_mode, p6)) => match sp_tag(s, p6, " "@) {
                                None => None,
                                Some(p7) => match sp_oids(s, p7) {
                                    None => None,
                                    Some((oids, p8)) => match sp_tag(s, p8, " "@) {
                                        None => None,
                                        Some(p9) => match sp_until(s, p9, "\n"@) {
                                            None => None,
                                            Some((path, p10)) => Some(
                                                (
                                                    SpecOrdinaryEntry {
                                                        staged_status,
                                                        unstaged_status,
                                                        submodule_status,
                                                        file_mode,
                                                        oids,
                                                        path,
                                                    },
                                                    p10,
                                                ),
                                            ),
                                        },
                                    },
                                },
                            },
                        },
                    },
                },
            },
        },
    }
}

/// A rename/copy line after its `2 ` tag: as an ordinary line, plus a
/// score, the path running to a tab, and the original path to the
/// newline.
pub open spec fn sp_renamed(s: Seq<char>, pos: int) -> Option<(SpecRenamedEntry, int)> {
    match sp_xy(s, pos) {
        None => None,
        Some((staged_status, p1)) => match sp_xy(s, p1) {
            None => None,
            Some((unstaged_status, p2)) => match sp_tag(s, p2, " "@) {
                None => None,
                Some(p3) => match sp_submodule(s, p3) {
                    None => None,
                    Some((submodule_status, p4)) => match sp_tag(s, p4, " "@) {
                        None => None,
                        Some(p5) => match sp_file_mode(s, p5) {
                            None => None,
                            Some((file_mode, p6)) => match sp_tag(s, p6, " "@) {
                                None => None,
                                Some(p7) => match sp_oids(s, p7) {
                                    None => None,
                                    Some((oids, p8)) => match sp_tag(s, p8, " "@) {
                                        None => None,
                                        Some(p9) => match sp_score(s, p9) {
                                            None => None,
                                            Some((score, p10)) => match sp_tag(s, p10, " "@) {
                                                None => None,
                                                Some(p11) => match sp_until(s, p11, "\t"@) {
                                                    None => None,
                                                    Some((path, p12)) => match sp_tag(
                                                        s,
                                                        p12,
                                                        "\t"@,
                                                    ) {
                                                        None => None,
                                                        Some(p13) => match sp_until(
                                                            s,
                                                            p13,
                                                            "\n"@,
                                                        ) {
                                                            None => None,
                                                            Some((original_path, p14)) => Some(
                                                                (
                                                                    SpecRenamedEntry {
                                                                        staged_status,
                                                                        unstaged_status,
                                                                        submodule_status,
                                                                        file_mode,
                                                                        oids,
                                                                        score,
                                                                        path,
                                                                        original_path,
                                                                    },
                                                                    p14,
                                                                ),
                                                            ),
                                                        },
                                                    },
                                                },
                                            },
                                        },
                                    },
                                },
                            },
                        },
                    },
                },
            },
        },
    }
}

/// An unmerged line after its `u ` tag.
pub open spec fn sp_unmerged(s: Seq<char>, pos: int) -> Option<(SpecUnmergedEntry, int)> {
    match sp_unmerged_xy(s, pos) {
        None => None,
        Some((staged_status, p1)) => match sp_unmerged_xy(s, p1) {
            None => None,
            Some((unstaged_status, p2)) => match sp_tag(s, p2, " "@) {
                None => None,
                Some(p3) => match sp_submodule(s, p3) {
                    None => None,
                    Some((submodule_status, p4)) => match sp_tag(s, p4, " "@) {
                        None => None,
                        Some(p5) => match sp_unmerged_file_mode(s, p5) {
                            None => None,
                            Some((file_mode, p6)) => match sp_tag(s, p6, " "@) {
                                None => None,
                                Some(p7) => match sp_unmerged_oids(s, p7) {
                                    None => None,
                                    Some((oids, p8)) => match sp_tag(s, p8, " "@) {
                                        None => None,
                                        Some(p9) => match sp_until(s, p9, "\n"@) {
                                            None => None,
                                            Some((path, p10)) => Some(
                                                (
                                                    SpecUnmergedEntry {
                                                        staged_status,
                                                        unstaged_status,
                                                        submodule_status,
                                                        file_mode,
                                                        oids,
                                                        path,
                                                    },
                                                    p10,
                                                ),
                                            ),
                                        },
                                    },
                                },
                            },
                        },
                    },
                },
            },
        },
    }
}

/// One whole status line at `pos`, dispatched on its two-character tag.
pub open spec fn sp_status_entry(s: Seq<char>, pos: int) -> Option<(SpecStatusEntry, int)> {
    if tag_at(s, pos, "1 "@) {
        match sp_ordinary(s, pos + 2) {
            None => None,
            Some((e, end)) => Some((SpecStatusEntry::Ordinary(e), end)),
        }
    } else if tag_at(s, pos, "2 "@) {
        match sp_renamed(s, pos + 2) {
            None => None,
            Some((e, end)) => Some((SpecStatusEntry::CopiedOrRenamed(e), end)),
        }
    } else if tag_at(s, pos, "u "@) {
        match sp_unmerged(s, pos + 2) {
            None => None,
            Some((e, end)) => Some((SpecStatusEntry::Unmerged(e), end)),
        }
    } else if tag_at(s, pos, "! "@) {
        match sp_until(s, pos + 2, "\n"@) {
            None => None,
            Some((path, end)) => Some((SpecStatusEntry::Untracked(path), end)),
        }
    } else if tag_at(s, pos, "? "@) {
        match sp_until(s, pos + 2, "\n"@) {
            None => None,
            Some((path, end)) => Some((SpecStatusEntry::Ignored(path), end)),
        }
    } else {
        None
    }
}

/// The greedy list of newline-terminated status lines at `pos`.
pub open spec fn sp_status_lines(s: Seq<char>, pos: int) -> (Seq<SpecStatusEntry>, int)
    decreases s.len() - pos,
{
    match sp_status_entry(s, pos) {
        None => (seq![], pos),
        Some((e, end)) => {
            if pos < end && end < s.len() && s[end] == '\n' {
                let (rest, fin) = sp_status_lines(s, end + 1);
                (seq![e] + rest, fin)
            } else {
                (seq![], pos)
            }
        },
    }
}

/// A whole porcelain-v2 input: the status lines, then the sentinel NUL.
pub open spec fn sp_parse_git_status(s: Seq<char>) -> Option<SpecStatusBuckets> {
    let (entries, fin) = sp_status_lines(s, 0);
    if fin < s.len() && s[fin] == '\u{0}' {
        Some(classify(entries))
    } else {
        None
    }
}

// ---------------------------------------------------------------------
// Classification
// ---------------------------------------------------------------------
/// The ancestor side of a conflict.
#[derive(Debug, Clone, PartialEq)]
pub struct AncestorSide {
    pub file_mode: u32,
    pub oid: String,
}

/// One of the two conflicting sides.
#[derive(Debug, Clone, PartialEq)]
pub struct ConflictSide {
    pub file_mode: u32,
    pub oid: String,
    pub status: Status,
}

/// A classified unmerged entry.
#[derive(Debug, Clone, PartialEq)]
pub struct ConflictStatusEntry {
    pub ancestor: AncestorSide,
    pub our: ConflictSide,
    pub path: String,
    pub submodule_status: Option<SubmoduleStatus>,
    pub their: ConflictSide,
    pub worktree_file_mode: u32,
}

/// A classified staged change.
#[derive(Debug, Clone, PartialEq)]
pub struct StagedStatusEntry {
    pub file_mode: u32,
    pub oids: StatusOids,
    pub original_path: Option<String>,
    pub path: String,
    pub score: Option<Score>,
    pub status: Status,
    pub submodule_status: Option<SubmoduleStatus>,
}

/// A classified unstaged change.
#[derive(Debug, Clone, PartialEq)]
pub struct UnstagedStatusEntry {
    pub file_mode: Option<u32>,
    pub oids: Option<StatusOids>,
    pub path: String,
    pub status: Status,
    pub submodule_status: Option<SubmoduleStatus>,
}

/// One record produced by classifying an entry.
#[derive(Debug, Clone, PartialEq)]
pub enum StatusEntryOutput {
    Conflict(ConflictStatusEntry),
    Ignored(IgnoredStatusEntry),
    Staged(StagedStatusEntry),
    Unstaged(UnstagedStatusEntry),
}

/// The four output buckets of a classified status.
#[derive(Debug, Clone, PartialEq)]
pub struct StatusResult {
    pub conflicts: Vec<ConflictStatusEntry>,
    pub ignored: Vec<IgnoredStatusEntry>,
    pub staged: Vec<StagedStatusEntry>,
    pub unstaged: Vec<UnstagedStatusEntry>,
}

/// Spec-level side of a conflict.
pub ghost struct SpecConflictSide {
    pub file_mode: u32,
    pub oid: Seq<char>,
    pub status: Status,
}

/// Spec-level classified conflict.
pub ghost struct SpecConflictEntry {
    pub ancestor_file_mode: u32,
    pub ancestor_oid: Seq<char>,
    pub our: SpecConflictSide,
    pub path: Seq<char>,
    pub submodule_status: Option<SubmoduleStatus>,
    pub their: SpecConflictSide,
    pub worktree_file_mode: u32,
}

/// Spec-level classified staged change.
pub ghost struct SpecStagedEntry {
    pub file_mode: u32,
    pub oids: SpecStatusOids,
    pub original_path: Option<Seq<char>>,
    pub path: Seq<char>,
    pub score: Option<Score>,
    pub status: Status,
    pub submodule_status: Option<SubmoduleStatus>,
}

/// Spec-level classified unstaged change.
pub ghost struct SpecUnstagedEntry {
    pub file_mode: Option<u32>,
    pub oids: Option<SpecStatusOids>,
    pub path: Seq<char>,
    pub status: Status,
    pub submodule_status: Option<SubmoduleStatus>,
}

/// Spec-level output buckets.
pub ghost struct SpecStatusBuckets {
    pub conflicts: Seq<SpecConflictEntry>,
    pub ignored: Seq<Seq<char>>,
    pub staged: Seq<SpecStagedEntry>,
    pub unstaged: Seq<SpecUnstagedEntry>,
}

impl View for AncestorSide {
    type V = (u32, Seq<char>);

    open spec fn view(&self) -> (u32, Seq<char>) {
        (self.file_mode, self.oid@)
    }
}

impl View for ConflictSide {
    type V = SpecConflictSide;

    open spec fn view(&self) -> SpecConflictSide {
        SpecConflictSide { file_mode: self.file_mode, oid: self.oid@, status: self.status }
    }
}

impl View for ConflictStatusEntry {
    type V = SpecConflictEntry;

    open spec fn view(&self) -> SpecConflictEntry {
        SpecConflictEntry {
            ancestor_file_mode: self.ancestor.file_mode,
            ancestor_oid: self.ancestor.oid@,
            our: self.our@,
            path: self.path@,
            submodule_status: self.submodule_status,
            their: self.their@,
            worktree_file_mode: self.worktree_file_mode,
        }
    }
}

impl DeepView for ConflictStatusEntry {
    type V = SpecConflictEntry;

    open spec fn deep_view(&self) -> SpecConflictEntry {
        self.view()
    }
}

impl View for IgnoredStatusEntry {
    type V = Seq<char>;

    open spec fn view(&self) -> Seq<char> {
        self.path@
    }
}

impl DeepView for IgnoredStatusEntry {
    type V = Seq<char>;

    open spec fn deep_view(&self) -> Seq<char> {
        self.path@
    }
}

impl View for StagedStatusEntry {
    type V = SpecStagedEntry;

    open spec fn view(&self) -> SpecStagedEntry {
        SpecStagedEntry {
            file_mode: self.file_mode,
            oids: self.oids@,
            original_path: match self.original_path {
                Some(p) => Some(p@),
                None => None,
            },
            path: self.path@,
            score: self.score,
            status: self.status,
            submodule_status: self.submodule_status,
        }
    }
}

impl DeepView for StagedStatusEntry {
    type V = SpecStagedEntry;

    open spec fn deep_view(&self) -> SpecStagedEntry {
        self.view()
    }
}

impl View for UnstagedStatusEntry {
    type V = SpecUnstagedEntry;

    open spec fn view(&self) -> SpecUnstagedEntry {
        SpecUnstagedEntry {
            file_mode: self.file_mode,
            oids: match self.oids {
                Some(o) => Some(o@),
                None => None,
            },
            path: self.path@,
            status: self.status,
            submodule_status: self.submodule_status,
        }
    }
}

impl DeepView for UnstagedStatusEntry {
    type V = SpecUnstagedEntry;

    open spec fn deep_view(&self) -> SpecUnstagedEntry {
        self.view()
    }
}

impl View for StatusResult {
    type V = SpecStatusBuckets;

    open spec fn view(&self) -> SpecStatusBuckets {
        SpecStatusBuckets {
            conflicts: self.conflicts.deep_view(),
            ignored: self.ignored.deep_view(),
            staged: self.staged.deep_view(),
            unstaged: self.unstaged.deep_view(),
        }
    }
}

/// Staged records hide the live submodule state: when the entry is a
/// submodule the staged record carries an all-clear submodule status.
pub open spec fn scrub_submodule(s: Option<SubmoduleStatus>) -> Option<SubmoduleStatus> {
    match s {
        Some(_) => Some(
            SubmoduleStatus {
                commit_changed: false,
                has_tracked_changes: false,
                has_untracked_changes: false,
            },
        ),
        None => None,
    }
}

/// The conflict record of an unmerged entry.
pub open spec fn conflict_of(e: SpecUnmergedEntry) -> SpecConflictEntry {
    SpecConflictEntry {
        ancestor_file_mode: e.file_mode.stage_1,
        ancestor_oid: e.oids.stage_1,
        our: SpecConflictSide {
            file_mode: e.file_mode.stage_2,
            oid: e.oids.stage_2,
            status: e.staged_status,
        },
        path: e.path,
        submodule_status: e.submodule_status,
        their: SpecConflictSide {
            file_mode: e.file_mode.stage_3,
            oid: e.oids.stage_3,
            status: e.unstaged_status,
        },
        worktree_file_mode: e.file_mode.worktree,
    }
}

/// The staged record of an ordinary entry whose staged status is set.
pub open spec fn staged_of_ordinary(e: SpecOrdinaryEntry) -> SpecStagedEntry
    recommends
        e.staged_status is Some,
{
    SpecStagedEntry {
        file_mode: e.file_mode.index,
        oids: e.oids,
        original_path: None,
        path: e.path,
        score: None,
        status: e.staged_status->0,
        submodule_status: scrub_submodule(e.submodule_status),
    }
}

/// The staged record of a rename/copy entry whose staged status is set.
pub open spec fn staged_of_renamed(e: SpecRenamedEntry) -> SpecStagedEntry
    recommends
        e.staged_status is Some,
{
    SpecStagedEntry {
        file_mode: e.file_mode.index,
        oids: e.oids,
        original_path: Some(e.original_path),
        path: e.path,
        score: Some(e.score),
        status: e.staged_status->0,
        submodule_status: scrub_submodule(e.submodule_status),
    }
}

/// The unstaged record of an ordinary entry whose unstaged status is set.
pub open spec fn unstaged_of_ordinary(e: SpecOrdinaryEntry) -> SpecUnstagedEntry
    recommends
        e.unstaged_status is Some,
{
    SpecUnstagedEntry {
        file_mode: Some(e.file_mode.worktree),
        oids: Some(e.oids),
        path: e.path,
        status: e.unstaged_status->0,
        submodule_status: e.submodule_status,
    }
}

/// The unstaged record of a rename/copy entry whose unstaged status is
/// set.
pub open spec fn unstaged_of_renamed(e: SpecRenamedEntry) -> SpecUnstagedEntry
    recommends
        e.unstaged_status is Some,
{
    SpecUnstagedEntry {
        file_mode: Some(e.file_mode.worktree),
        oids: Some(e.oids),
        path: e.path,
        status: e.unstaged_status->0,
        submodule_status: e.submodule_status,
    }
}

/// The unstaged record of an untracked entry: status `Added`, no mode,
/// no object ids.
pub open spec fn unstaged_of_untracked(path: Seq<char>) -> SpecUnstagedEntry {
    SpecUnstagedEntry {
        file_mode: None,
        oids: None,
        path: path,
        status: Status::Added,
        submodule_status: None,
    }
}

/// Buckets with nothing in them.
pub open spec fn empty_buckets() -> SpecStatusBuckets {
    SpecStatusBuckets { conflicts: seq![], ignored: seq![], staged: seq![], unstaged: seq![] }
}

/// Bucket-wise concatenation.
pub open spec fn cat_buckets(a: SpecStatusBuckets, b: SpecStatusBuckets) -> SpecStatusBuckets {
    SpecStatusBuckets {
        conflicts: a.conflicts + b.conflicts,
        ignored: a.ignored + b.ignored,
        staged: a.staged + b.staged,
        unstaged: a.unstaged + b.unstaged,
    }
}

/// What one entry adds to the buckets.
///
/// An ordinary or rename/copy entry adds a staged record exactly when its
/// staged status is set and an unstaged record exactly when its unstaged
/// status is set; an unmerged entry adds one conflict; an untracked entry
/// one unstaged record; an ignored entry its path.
pub open spec fn contribution(e: SpecStatusEntry) -> SpecStatusBuckets {
    match e {
        SpecStatusEntry::Ordinary(o) => SpecStatusBuckets {
            conflicts: seq![],
            ignored: seq![],
            staged: if o.staged_status is Some {
                seq![staged_of_ordinary(o)]
            } else {
                seq![]
            },
            unstaged: if o.unstaged_status is Some {
                seq![unstaged_of_ordinary(o)]
            } else {
                seq![]
            },
        },
        SpecStatusEntry::CopiedOrRenamed(c) => SpecStatusBuckets {
            conflicts: seq![],
            ignored: seq![],
            staged: if c.staged_status is Some {
                seq![staged_of_renamed(c)]
            } else {
                seq![]
            },
            unstaged: if c.unstaged_status is Some {
                seq![unstaged_of_renamed(c)]
            } else {
                seq![]
            },
        },
        SpecStatusEntry::Unmerged(u) => SpecStatusBuckets {
            conflicts: seq![conflict_of(u)],
            ignored: seq![],
            staged: seq![],
            unstaged: seq![],
        },
        SpecStatusEntry::Untracked(path) => SpecStatusBuckets {
            conflicts: seq![],
            ignored: seq![],
            staged: seq![],
            unstaged: seq![unstaged_of_untracked(path)],
        },
        SpecStatusEntry::Ignored(path) => SpecStatusBuckets {
            conflicts: seq![],
            ignored: seq![path],
            staged: seq![],
            unstaged: seq![],
        },
    }
}

/// The buckets of a whole entry list, in input order.
pub open spec fn classify(entries: Seq<SpecStatusEntry>) -> SpecStatusBuckets
    decreases entries.len(),
{
    if entries.len() == 0 {
        empty_buckets()
    } else {
        cat_buckets(classify(entries.drop_last()), contribution(entries.last()))
    }
}

/// How many records an entry contributes in all.
pub open spec fn records_of(e: SpecStatusEntry) -> nat {
    let b = contribution(e);
    b.conflicts.len() + b.ignored.len() + b.staged.len() + b.unstaged.len()
}

/// How many distinct buckets an entry's records land in.
pub open spec fn buckets_touched(e: SpecStatusEntry) -> nat {
    let b = contribution(e);
    (if b.conflicts.len() > 0 {
        1nat
    } else {
        0nat
    }) + (if b.ignored.len() > 0 {
        1nat
    } else {
        0nat
    }) + (if b.staged.len() > 0 {
        1nat
    } else {
        0nat
    }) + (if b.unstaged.len() > 0 {
        1nat
    } else {
        0nat
    })
}

/// An ordinary or rename/copy entry with neither status set.
pub open spec fn no_statuses_set(e: SpecStatusEntry) -> bool {
    ||| (e matches SpecStatusEntry::Ordinary(o) && o.staged_status is None && o.unstaged_status
        is None)
    ||| (e matches SpecStatusEntry::CopiedOrRenamed(c) && c.staged_status is None
        && c.unstaged_status is None)
}

/// An ordinary or rename/copy entry with both statuses set.
pub open spec fn both_statuses_set(e: SpecStatusEntry) -> bool {
    ||| (e matches SpecStatusEntry::Ordinary(o) && o.staged_status is Some && o.unstaged_status
        is Some)
    ||| (e matches SpecStatusEntry::CopiedOrRenamed(c) && c.staged_status is Some
        && c.unstaged_status is Some)
}

/// Classification is total: an entry contributes no record exactly when
/// it is an ordinary or rename/copy entry with neither status set, and
/// an entry with one side set, or of any other kind, contributes at
/// least one record, all landing in a single bucket. (An ordinary or
/// rename/copy entry with both statuses set contributes one staged and
/// one unstaged record, so it is left out here.)
pub proof fn lemma_status_classification_total(e: SpecStatusEntry)
    requires
        !both_statuses_set(e),
    ensures
        records_of(e) == 0 <==> no_statuses_set(e),
        !no_statuses_set(e) ==> records_of(e) >= 1 && buckets_touched(e) == 1,
{
}

/// Appending one entry appends its contribution, bucket by bucket.
pub proof fn lemma_classify_push(entries: Seq<SpecStatusEntry>, e: SpecStatusEntry)
    ensures
        classify(entries.push(e)) == cat_buckets(classify(entries), contribution(e)),
{
    assert(entries.push(e).drop_last() =~= entries);
    assert(entries.push(e).last() == e);
}

// ---------------------------------------------------------------------
// The executable parser
// ---------------------------------------------------------------------
/// Read one `XY` status-code column at `pos`.
fn take_xy(input: &str, pos: usize) -> (r: Option<(Option<Status>, usize)>)
    requires
        pos <= input@.len(),
    ensures
        match r {
            Some(v) => sp_xy(input@, pos as int) == Some((v.0, v.1 as int)) && pos < v.1
                <= input@.len(),
            None => sp_xy(input@, pos as int) is None,
        },
{
    if pos >= input.unicode_len() {
        return None;
    }
    let c = input.get_char(pos);
    match c {
        'M' => Some((Some(Status::Modified), pos + 1)),
        'A' => Some((Some(Status::Added), pos + 1)),
        'D' => Some((Some(Status::Deleted), pos + 1)),
        'R' => Some((Some(Status::Renamed), pos + 1)),
        'C' => Some((Some(Status::Copied), pos + 1)),
        '?' => Some((Some(Status::Untracked), pos + 1)),
        '.' => Some((None, pos + 1)),
        _ => None,
    }
}

/// Read one unmerged status-code column at `pos`.
fn take_unmerged_xy(input: &str, pos: usize) -> (r: Option<(Status, usize)>)
    requires
        pos <= input@.len(),
    ensures
        match r {
            Some(v) => sp_unmerged_xy(input@, pos as int) == Some((v.0, v.1 as int)) && pos < v.1
                <= input@.len(),
            None => sp_unmerged_xy(input@, pos as int) is None,
        },
{
    if pos >= input.unicode_len() {
        return None;
    }
    let c = input.get_char(pos);
    match c {
        'A' => Some((Status::Added, pos + 1)),
        'D' => Some((Status::Deleted, pos + 1)),
        'U' => Some((Status::Unmerged, pos + 1)),
        _ => None,
    }
}

/// Read the four-character submodule field at `pos`.
fn take_submodule(input: &str, pos: usize) -> (r: Option<(Option<SubmoduleStatus>, usize)>)
    requires
        pos <= input@.len(),
    ensures
        match r {
            Some(v) => sp_submodule(input@, pos as int) == Some((v.0, v.1 as int)) && pos < v.1
                <= input@.len(),
            None => sp_submodule(input@, pos as int) is None,
        },
{
    let len = input.unicode_len();
    if len - pos < 4 {
        return None;
    }
    let c = input.get_char(pos);
    if c == 'S' {
        let c1 = input.get_char(pos + 1);
        let c2 = input.get_char(pos + 2);
        let c3 = input.get_char(pos + 3);
        if (c1 == 'C' || c1 == '.') && (c2 == 'M' || c2 == '.') && (c3 == 'U' || c3 == '.') {
            Some(
                (
                    Some(
                        SubmoduleStatus {
                            commit_changed: c1 == 'C',
                            has_tracked_changes: c2 == 'M',
                            has_untracked_changes: c3 == 'U',
                        },
                    ),
                    pos + 4,
                ),
            )
        } else {
            None
        }
    } else if c == 'N' {
        Some((None, pos + 4))
    } else {
        None
    }
}

/// Read three space-separated octal modes at `pos`.
fn take_file_mode(input: &str, pos: usize) -> (r: Option<(FileModeStatus, usize)>)
    requires
        pos <= input@.len(),
    ensures
        match r {
            Some(v) => sp_file_mode(input@, pos as int) == Some((v.0, v.1 as int)) && pos < v.1
                <= input@.len(),
            None => sp_file_mode(input@, pos as int) is None,
        },
{
    let (head, p1) = match take_oct(input, pos) {
        Some(v) => v,
        None => { return None; },
    };
    let p2 = match take_tag(input, p1, " ") {
        Some(p) => p,
        None => { return None; },
    };
    let (index, p3) = match take_oct(input, p2) {
        Some(v) => v,
        None => { return None; },
    };
    let p4 = match take_tag(input, p3, " ") {
        Some(p) => p,
        None => { return None; },
    };
    let (worktree, p5) = match take_oct(input, p4) {
        Some(v) => v,
        None => { return None; },
    };
    Some((FileModeStatus { head, index, worktree }, p5))
}

/// Read four space-separated octal modes at `pos`.
fn take_unmerged_file_mode(input: &str, pos: usize) -> (r: Option<(UnmergedFileModeStatus, usize)>)
    requires
        pos <= input@.len(),
    ensures
        match r {
            Some(v) => sp_unmerged_file_mode(input@, pos as int) == Some((v.0, v.1 as int)) && pos
                < v.1 <= input@.len(),
            None => sp_unmerged_file_mode(input@, pos as int) is None,
        },
{
    let (stage_1, p1) = match take_oct(input, pos) {
        Some(v) => v,
        None => { return None; },
    };
    let p2 = match take_tag(input, p1, " ") {
        Some(p) => p,
        None => { return None; },
    };
    let (stage_2, p3) = match take_oct(input, p2) {
        Some(v) => v,
        None => { return None; },
    };
    let p4 = match take_tag(input, p3, " ") {
        Some(p) => p,
        None => { return None; },
    };
    let (stage_3, p5) = match take_oct(input, p4) {
        Some(v) => v,
        None => { return None; },
    };
    let p6 = match take_tag(input, p5, " ") {
        Some(p) => p,
        None => { return None; },
    };
    let (worktree, p7) = match take_oct(input, p6) {
        Some(v) => v,
        None => { return None; },
    };
    Some((UnmergedFileModeStatus { stage_1, stage_2, stage_3, worktree }, p7))
}

/// Read a rename/copy score at `pos`.
fn take_score(input: &str, pos: usize) -> (r: Option<(Score, usize)>)
    requires
        pos <= input@.len(),
    ensures
        match r {
            Some(v) => sp_score(input@, pos as int) == Some((v.0, v.1 as int)) && pos < v.1
                <= input@.len(),
            None => sp_score(input@, pos as int) is None,
        },
{
    if pos >= input.unicode_len() {
        return None;
    }
    let c = input.get_char(pos);
    let score_type = if c == 'R' {
        ScoreType::Renamed
    } else if c == 'C' {
        ScoreType::Copied
    } else {
        return None;
    };
    let (percentage, p1) = match crate::parse_util::take_digits(input, pos + 1) {
        Some(v) => v,
        None => { return None; },
    };
    Some((Score { score_type, percentage }, p1))
}

/// Read the head and index object ids at `pos`.
fn take_oids(input: &str, pos: usize) -> (r: Option<(StatusOids, usize)>)
    requires
        pos <= input@.len(),
    ensures
        match r {
            Some(v) => sp_oids(input@, pos as int) == Some((v.0@, v.1 as int)) && pos < v.1
                <= input@.len(),
            None => sp_oids(input@, pos as int) is None,
        },
{
    let (head, p1) = match take_sha(input, pos) {
        Some(v) => v,
        None => { return None; },
    };
    let p2 = match take_tag(input, p1, " ") {
        Some(p) => p,
        None => { return None; },
    };
    let (index, p3) = match take_sha(input, p2) {
        Some(v) => v,
        None => { return None; },
    };
    Some((StatusOids { head, index }, p3))
}

/// Read the three stage object ids at `pos`.
fn take_unmerged_oids(input: &str, pos: usize) -> (r: Option<(UnmergedStatusOids, usize)>)
    requires
        pos <= input@.len(),
    ensures
        match r {
            Some(v) => sp_unmerged_oids(input@, pos as int) == Some((v.0@, v.1 as int)) && pos
                < v.1 <= input@.len(),
            None => sp_unmerged_oids(input@, pos as int) is None,
        },
{
    let (stage_1, p1) = match take_sha(input, pos) {
        Some(v) => v,
        None => { return None; },
    };
    let p2 = match take_tag(input, p1, " ") {
        Some(p) => p,
        None => { return None; },
    };
    let (stage_2, p3) = match take_sha(input, p2) {
        Some(v) => v,
        None => { return None; },
    };
    let p4 = match take_tag(input, p3, " ") {
        Some(p) => p,
        None => { return None; },
    };
    let (stage_3, p5) = match take_sha(input, p4) {
        Some(v) => v,
        None => { return None; },
    };
    Some((UnmergedStatusOids { stage_1, stage_2, stage_3 }, p5))
}

/// Parse an ordinary line after its tag.
fn parse_ordinary(input: &str, pos: usize) -> (r: Option<(OrdinaryStatusEntry, usize)>)
    requires
        pos <= input@.len(),
    ensures
        match r {
            Some(v) => sp_ordinary(input@, pos as int) == Some((v.0@, v.1 as int)) && pos < v.1
                <= input@.len(),
            None => sp_ordinary(input@, pos as int) is None,
        },
{
    let (staged_status, p1) = match take_xy(input, pos) {
        Some(v) => v,
        None => { return None; },
    };
    let (unstaged_status, p2) = match take_xy(input, p1) {
        Some(v) => v,
        None => { return None; },
    };
    let p3 = match take_tag(input, p2, " ") {
        Some(p) => p,
        None => { return None; },
    };
    let (submodule_status, p4) = match take_submodule(input, p3) {
        Some(v) => v,
        None => { return None; },
    };
    let p5 = match take_tag(input, p4, " ") {
        Some(p) => p,
        None => { return None; },
    };
    let (file_mode, p6) = match take_file_mode(input, p5) {
        Some(v) => v,
        None => { return None; },
    };
    let p7 = match take_tag(input, p6, " ") {
        Some(p) => p,
        None => { return None; },
    };
    let (oids, p8) = match take_oids(input, p7) {
        Some(v) => v,
        None => { return None; },
    };
    let p9 = match take_tag(input, p8, " ") {
        Some(p) => p,
        None => { return None; },
    };
    let (path, p10) = match take_until(input, p9, "\n") {
        Some(v) => v,
        None => { return None; },
    };
    Some(
        (
            OrdinaryStatusEntry {
                staged_status,
                unstaged_status,
                submodule_status,
                file_mode,
                oids,
                path,
            },
            p10,
        ),
    )
}

/// Parse a rename/copy line after its tag.
fn parse_renamed(input: &str, pos: usize) -> (r: Option<(CopiedOrRenamedStatusEntry, usize)>)
    requires
        pos <= input@.len(),
    ensures
        match r {
            Some(v) => sp_renamed(input@, pos as int) == Some((v.0@, v.1 as int)) && pos < v.1
                <= input@.len(),
            None => sp_renamed(input@, pos as int) is None,
        },
{
    let (staged_status, p1) = match take_xy(input, pos) {
        Some(v) => v,
        None => { return None; },
    };
    let (unstaged_status, p2) = match take_xy(input, p1) {
        Some(v) => v,
        None => { return None; },
    };
    let p3 = match take_tag(input, p2, " ") {
        Some(p) => p,
        None => { return None; },
    };
    let (submodule_status, p4) = match take_submodule(input, p3) {
        Some(v) => v,
        None => { return None; },
    };
    let p5 = match take_tag(input, p4, " ") {
        Some(p) => p,
        None => { return None; },
    };
    let (file_mode, p6) = match take_file_mode(input, p5) {
        Some(v) => v,
        None => { return None; },
    };
    let p7 = match take_tag(input, p6, " ") {
        Some(p) => p,
        None => { return None; },
    };
    let (oids, p8) = match take_oids(input, p7) {
        Some(v) => v,
        None => { return None; },
    };
    let p9 = match take_tag(input, p8, " ") {
        Some(p) => p,
        None => { return None; },
    };
    let (score, p10) = match take_score(input, p9) {
        Some(v) => v,
        None => { return None; },
    };
    let p11 = match take_tag(input, p10, " ") {
        Some(p) => p,
        None => { return None; },
    };
    let (path, p12) = match take_until(input, p11, "\t") {
        Some(v) => v,
        None => { return None; },
    };
    let p13 = match take_tag(input, p12, "\t") {
        Some(p) => p,
        None => { return None; },
    };
    let (original_path, p14) = match take_until(input, p13, "\n") {
        Some(v) => v,
        None => { return None; },
    };
    Some(
        (
            CopiedOrRenamedStatusEntry {
                staged_status,
                unstaged_status,
                submodule_status,
                file_mode,
                oids,
                score,
                path,
                original_path,
            },
            p14,
        ),
    )
}

/// Parse an unmerged line after its tag.
fn parse_unmerged(input: &str, pos: usize) -> (r: Option<(UnmergedStatusEntry, usize)>)
    requires
        pos <= input@.len(),
    ensures
        match r {
            Some(v) => sp_unmerged(input@, pos as int) == Some((v.0@, v.1 as int)) && pos < v.1
                <= input@.len(),
            None => sp_unmerged(input@, pos as int) is None,
        },
{
    let (staged_status, p1) = match take_unmerged_xy(input, pos) {
        Some(v) => v,
        None => { return None; },
    };
    let (unstaged_status, p2) = match take_unmerged_xy(input, p1) {
        Some(v) => v,
        None => { return None; },
    };
    let p3 = match take_tag(input, p2, " ") {
        Some(p) => p,
        None => { return None; },
    };
    let (submodule_status, p4) = match take_submodule(input, p3) {
        Some(v) => v,
        None => { return None; },
    };
    let p5 = match take_tag(input, p4, " ") {
        Some(p) => p,
        None => { return None; },
    };
    let (file_mode, p6) = match take_unmerged_file_mode(input, p5) {
        Some(v) => v,
        None => { return None; },
    };
    let p7 = match take_tag(input, p6, " ") {
        Some(p) => p,
        None => { return None; },
    };
    let (oids, p8) = match take_unmerged_oids(input, p7) {
        Some(v) => v,
        None => { return None; },
    };
    let p9 = match take_tag(input, p8, " ") {
        Some(p) => p,
        None => { return None; },
    };
    let (path, p10) = match take_until(input, p9, "\n") {
        Some(v) => v,
        None => { return None; },
    };
    Some(
        (
            UnmergedStatusEntry {
                staged_status,
                unstaged_status,
                submodule_status,
                file_mode,
                oids,
                path,
            },
            p10,
        ),
    )
}

/// Parse one status line at `pos`, tag included.
fn parse_status_entry(input: &str, pos: usize) -> (r: Option<(StatusEntry, usize)>)
    requires
        pos <= input@.len(),
    ensures
        match r {
            Some(v) => sp_status_entry(input@, pos as int) == Some((v.0@, v.1 as int)) && pos
                < v.1 <= input@.len(),
            None => sp_status_entry(input@, pos as int) is None,
        },
{
    proof {
        reveal_strlit("1 ");
        reveal_strlit("2 ");
        reveal_strlit("u ");
        reveal_strlit("! ");
        reveal_strlit("? ");
    }
    if let Some(p) = take_tag(input, pos, "1 ") {
        return match parse_ordinary(input, p) {
            Some((e, end)) => Some((StatusEntry::OrdinaryStatusEntry(e), end)),
            None => None,
        };
    }
    if let Some(p) = take_tag(input, pos, "2 ") {
        return match parse_renamed(input, p) {
            Some((e, end)) => Some((StatusEntry::CopiedOrRenamedStatusEntry(e), end)),
            None => None,
        };
    }
    if let Some(p) = take_tag(input, pos, "u ") {
        return match parse_unmerged(input, p) {
            Some((e, end)) => Some((StatusEntry::UnmergedStatusEntry(e), end)),
            None => None,
        };
    }
    if let Some(p) = take_tag(input, pos, "! ") {
        return match take_until(input, p, "\n") {
            Some((path, end)) => Some((StatusEntry::UntrackedStatusEntry(
                UntrackedStatusEntry { path },
            ), end)),
            None => None,
        };
    }
    if let Some(p) = take_tag(input, pos, "? ") {
        return match take_until(input, p, "\n") {
            Some((path, end)) => Some((StatusEntry::IgnoredStatusEntry(
                IgnoredStatusEntry { path },
            ), end)),
            None => None,
        };
    }
    None
}

/// Parse the newline-terminated status lines from the start of `input`.
fn parse_status_lines(input: &str) -> (r: (Vec<StatusEntry>, usize))
    ensures
        r.0.deep_view() == sp_status_lines(input@, 0).0,
        r.1 as int == sp_status_lines(input@, 0).1,
        r.1 <= input@.len(),
{
    let mut entries: Vec<StatusEntry> = Vec::new();
    let mut pos: usize = 0;
    let len = input.unicode_len();
    loop
        invariant_except_break
            pos <= len,
            len == input@.len(),
            sp_status_lines(input@, 0).0 == entries.deep_view() + sp_status_lines(
                input@,
                pos as int,
            ).0,
            sp_status_lines(input@, 0).1 == sp_status_lines(input@, pos as int).1,
        ensures
            entries.deep_view() == sp_status_lines(input@, 0).0,
            pos as int == sp_status_lines(input@, 0).1,
            pos <= input@.len(),
        decreases input@.len() - pos,
    {
        let (entry, end) = match parse_status_entry(input, pos) {
            Some(v) => v,
            None => {
                proof {
                    assert(sp_status_lines(input@, pos as int).0 =~= Seq::<SpecStatusEntry>::empty());
                    assert(entries.deep_view() =~= sp_status_lines(input@, 0).0);
                }
                break;
            },
        };
        if end < len && input.get_char(end) == '\n' {
            let ghost old_entries = entries.deep_view();
            entries.push(entry);
            proof {
                assert(entries.deep_view() =~= old_entries.push(entry@));
                let tail = sp_status_lines(input@, end as int + 1).0;
                assert(sp_status_lines(input@, pos as int).0 =~= seq![entry@] + tail);
                assert(old_entries + (seq![entry@] + tail) =~= entries.deep_view() + tail);
            }
            pos = end + 1;
        } else {
            proof {
                assert(sp_status_lines(input@, pos as int).0 =~= Seq::<SpecStatusEntry>::empty());
                assert(entries.deep_view() =~= sp_status_lines(input@, 0).0);
            }
            break;
        }
    }
    (entries, pos)
}

// ---------------------------------------------------------------------
// The executable classifier
// ---------------------------------------------------------------------
impl ConflictStatusEntry {
    /// The conflict record of an unmerged entry.
    pub fn from_unmerged_status_entry(entry: &UnmergedStatusEntry) -> (r: StatusEntryOutput)
        ensures
            r matches StatusEntryOutput::Conflict(c) && c@ == conflict_of(entry@),
    {
        StatusEntryOutput::Conflict(
            ConflictStatusEntry {
                ancestor: AncestorSide {
                    file_mode: entry.file_mode.stage_1,
                    oid: entry.oids.stage_1.clone(),
                },
                our: ConflictSide {
                    file_mode: entry.file_mode.stage_2,
                    oid: entry.oids.stage_2.clone(),
                    status: entry.staged_status,
                },
                path: entry.path.clone(),
                submodule_status: entry.submodule_status,
                their: ConflictSide {
                    file_mode: entry.file_mode.stage_3,
                    oid: entry.oids.stage_3.clone(),
                    status: entry.unstaged_status,
                },
                worktree_file_mode: entry.file_mode.worktree,
            },
        )
    }
}

/// Copy a submodule status, blanking its live flags, as staged records
/// carry it.
fn scrub_submodule_exec(s: &Option<SubmoduleStatus>) -> (r: Option<SubmoduleStatus>)
    ensures
        r == scrub_submodule(*s),
{
    match s {
        Some(_) => Some(
            SubmoduleStatus {
                commit_changed: false,
                has_tracked_changes: false,
                has_untracked_changes: false,
            },
        ),
        None => None,
    }
}

impl StagedStatusEntry {
    /// The staged record of an ordinary entry, when its staged status is
    /// set.
    pub fn from_ordinary_status_entry(entry: &OrdinaryStatusEntry) -> (r: Option<
        StatusEntryOutput,
    >)
        ensures
            r is Some <==> entry.staged_status is Some,
            r matches Some(out) ==> out matches StatusEntryOutput::Staged(se) && se@
                == staged_of_ordinary(entry@),
    {
        match entry.staged_status {
            Some(status) => Some(
                StatusEntryOutput::Staged(
                    StagedStatusEntry {
                        file_mode: entry.file_mode.index,
                        oids: StatusOids {
                            head: entry.oids.head.clone(),
                            index: entry.oids.index.clone(),
                        },
                        original_path: None,
                        path: entry.path.clone(),
                        score: None,
                        status,
                        submodule_status: scrub_submodule_exec(&entry.submodule_status),
                    },
                ),
            ),
            None => None,
        }
    }

    /// The staged record of a rename/copy entry, when its staged status
    /// is set.
    pub fn from_copied_or_renamed_status_entry(entry: &CopiedOrRenamedStatusEntry) -> (r: Option<
        StatusEntryOutput,
    >)
        ensures
            r is Some <==> entry.staged_status is Some,
            r matches Some(out) ==> out matches StatusEntryOutput::Staged(se) && se@
                == staged_of_renamed(entry@),
    {
        match entry.staged_status {
            Some(status) => Some(
                StatusEntryOutput::Staged(
                    StagedStatusEntry {
                        file_mode: entry.file_mode.index,
                        oids: StatusOids {
                            head: entry.oids.head.clone(),
                            index: entry.oids.index.clone(),
                        },
                        original_path: Some(entry.original_path.clone()),
                        path: entry.path.clone(),
                        score: Some(entry.score),
                        status,
                        submodule_status: scrub_submodule_exec(&entry.submodule_status),
                    },
                ),
            ),
            None => None,
        }
    }
}

impl UnstagedStatusEntry {
    /// The unstaged record of an ordinary entry, when its unstaged
    /// status is set.
    pub fn from_ordinary_status_entry(entry: &OrdinaryStatusEntry) -> (r: Option<
        StatusEntryOutput,
    >)
        ensures
            r is Some <==> entry.unstaged_status is Some,
            r matches Some(out) ==> out matches StatusEntryOutput::Unstaged(se) && se@
                == unstaged_of_ordinary(entry@),
    {
        match entry.unstaged_status {
            Some(status) => Some(
                StatusEntryOutput::Unstaged(
                    UnstagedStatusEntry {
                        file_mode: Some(entry.file_mode.worktree),
                        oids: Some(
                            StatusOids {
                                head: entry.oids.head.clone(),
                                index: entry.oids.index.clone(),
                            },
                        ),
                        path: entry.path.clone(),
                        status,
                        submodule_status: entry.submodule_status,
                    },
                ),
            ),
            None => None,
        }
    }

    /// The unstaged record of a rename/copy entry, when its unstaged
    /// status is set.
    pub fn from_copied_or_renamed_status_entry(entry: &CopiedOrRenamedStatusEntry) -> (r: Option<
        StatusEntryOutput,
    >)
        ensures
            r is Some <==> entry.unstaged_status is Some,
            r matches Some(out) ==> out matches StatusEntryOutput::Unstaged(se) && se@
                == unstaged_of_renamed(entry@),
    {
        match entry.unstaged_status {
            Some(status) => Some(
                StatusEntryOutput::Unstaged(
                    UnstagedStatusEntry {
                        file_mode: Some(entry.file_mode.worktree),
                        oids: Some(
                            StatusOids {
                                head: entry.oids.head.clone(),
                                index: entry.oids.index.clone(),
                            },
                        ),
                        path: entry.path.clone(),
                        status,
                        submodule_status: entry.submodule_status,
                    },
                ),
            ),
            None => None,
        }
    }

    /// The unstaged record of an untracked entry.
    pub fn from_untracked_status_entry(entry: &UntrackedStatusEntry) -> (r: StatusEntryOutput)
        ensures
            r matches StatusEntryOutput::Unstaged(se) && se@ == unstaged_of_untracked(
                entry.path@,
            ),
    {
        StatusEntryOutput::Unstaged(
            UnstagedStatusEntry {
                file_mode: None,
                oids: None,
                path: entry.path.clone(),
                status: Status::Added,
                submodule_status: None,
            },
        )
    }
}

impl StatusResult {
    /// Empty buckets.
    pub fn new() -> (r: StatusResult)
        ensures
            r@ == empty_buckets(),
    {
        let r = StatusResult {
            conflicts: Vec::new(),
            ignored: Vec::new(),
            staged: Vec::new(),
            unstaged: Vec::new(),
        };
        proof {
            assert(r@.conflicts =~= empty_buckets().conflicts);
            assert(r@.ignored =~= empty_buckets().ignored);
            assert(r@.staged =~= empty_buckets().staged);
            assert(r@.unstaged =~= empty_buckets().unstaged);
        }
        r
    }
}

impl Default for StatusResult {
    /// Empty buckets.
    fn default() -> (r: StatusResult)
        ensures
            r@ == empty_buckets(),
    {
        StatusResult::new()
    }
}

/// Classify parsed entries into the four output buckets, in input order.
pub fn build_git_status_output(entries: Vec<StatusEntry>) -> (r: StatusResult)
    ensures
        r@ == classify(entries.deep_view()),
{
    let mut result = StatusResult::new();
    let mut i: usize = 0;
    proof {
        assert(entries.deep_view().subrange(0, 0) =~= Seq::<SpecStatusEntry>::empty());
        assert(result@ == classify(entries.deep_view().subrange(0, 0)));
    }
    while i < entries.len()
        invariant
            0 <= i <= entries@.len(),
            entries.deep_view().len() == entries@.len(),
            result@ == classify(entries.deep_view().subrange(0, i as int)),
        decreases entries@.len() - i,
    {
        let ghost prefix = entries.deep_view().subrange(0, i as int);
        let ghost entry_view = entries.deep_view()[i as int];
        let ghost old_result = result@;
        let entry = &entries[i];
        proof {
            assert(entry@ == entry_view);
        }
        match entry {
            StatusEntry::OrdinaryStatusEntry(e) => {
                match StagedStatusEntry::from_ordinary_status_entry(e) {
                    Some(StatusEntryOutput::Staged(se)) => { result.staged.push(se); },
                    _ => {},
                }
                match UnstagedStatusEntry::from_ordinary_status_entry(e) {
                    Some(StatusEntryOutput::Unstaged(se)) => { result.unstaged.push(se); },
                    _ => {},
                }
            },
            StatusEntry::CopiedOrRenamedStatusEntry(e) => {
                match StagedStatusEntry::from_copied_or_renamed_status_entry(e) {
                    Some(StatusEntryOutput::Staged(se)) => { result.staged.push(se); },
                    _ => {},
                }
                match UnstagedStatusEntry::from_copied_or_renamed_status_entry(e) {
                    Some(StatusEntryOutput::Unstaged(se)) => { result.unstaged.push(se); },
                    _ => {},
                }
            },
            StatusEntry::UnmergedStatusEntry(e) => {
                match ConflictStatusEntry::from_unmerged_status_entry(e) {
                    StatusEntryOutput::Conflict(c) => { result.conflicts.push(c); },
                    _ => {},
                }
            },
            StatusEntry::UntrackedStatusEntry(e) => {
                match UnstagedStatusEntry::from_untracked_status_entry(e) {
                    StatusEntryOutput::Unstaged(se) => { result.unstaged.push(se); },
                    _ => {},
                }
            },
            StatusEntry::IgnoredStatusEntry(e) => {
                result.ignored.push(IgnoredStatusEntry { path: e.path.clone() });
            },
        }
        proof {
            assert(result@ == cat_buckets(old_result, contribution(entry_view))) by {
                assert(result@.conflicts =~= old_result.conflicts + contribution(
                    entry_view,
                ).conflicts);
                assert(result@.ignored =~= old_result.ignored + contribution(entry_view).ignored);
                assert(result@.staged =~= old_result.staged + contribution(entry_view).staged);
                assert(result@.unstaged =~= old_result.unstaged + contribution(
                    entry_view,
                ).unstaged);
            }
            lemma_classify_push(prefix, entry_view);
            assert(prefix.push(entry_view) =~= entries.deep_view().subrange(0, i as int + 1));
        }
        i += 1;
    }
    proof {
        assert(entries.deep_view().subrange(0, entries.deep_view().len() as int) =~= entries.deep_view());
    }
    result
}

/// Parse a whole porcelain-v2 status and classify it. The input must be
/// the status lines followed by the sentinel NUL; an input of the NUL
/// alone gives empty buckets.
pub fn parse_git_status(input: &str) -> (r: Result<StatusResult, Error>)
    ensures
        match r {
            Ok(res) => sp_parse_git_status(input@) == Some(res@),
            Err(e) => sp_parse_git_status(input@) is None && e == Error::Process(
                ProcessError::Parsing,
            ),
        },
{
    let (entries, fin) = parse_status_lines(input);
    let len = input.unicode_len();
    if fin < len && input.get_char(fin) == '\u{0}' {
        Ok(build_git_status_output(entries))
    } else {
        Err(Error::Process(ProcessError::Parsing))
    }
}

} // verus!
