use gitrs_server::error::{Error, ProcessError};
use gitrs_server::status_entry::{
    build_git_status_output, parse_git_status, FileModeStatus, OrdinaryStatusEntry, Status,
    StatusEntry, StatusOids, UntrackedStatusEntry,
};

fn sha(c: char) -> String {
    std::iter::repeat(c).take(40).collect()
}

#[test]
fn nul_alone_gives_empty_buckets() {
    let result = parse_git_status("\u{0}").unwrap();
    assert!(result.conflicts.is_empty());
    assert!(result.ignored.is_empty());
    assert!(result.staged.is_empty());
    assert!(result.unstaged.is_empty());
}

#[test]
fn staged_modification_lands_in_staged_only() {
    let line = format!("1 M. N... 100644 100644 100644 {} {} file.txt\n\u{0}", sha('a'), sha('b'));
    let result = parse_git_status(&line).unwrap();
    assert_eq!(result.staged.len(), 1);
    assert!(result.unstaged.is_empty());
    assert!(result.conflicts.is_empty());
    assert!(result.ignored.is_empty());
    let staged = &result.staged[0];
    assert_eq!(staged.path.as_str(), "file.txt");
    assert_eq!(staged.status, Status::Modified);
    // 100644 octal
    assert_eq!(staged.file_mode, 0o100644);
    assert_eq!(staged.oids.head.as_str(), sha('a').as_str());
    assert_eq!(staged.oids.index.as_str(), sha('b').as_str());
    assert!(staged.original_path.is_none());
    assert!(staged.score.is_none());
}

#[test]
fn unstaged_modification_lands_in_unstaged_only() {
    let line = format!("1 .M N... 100644 100644 100644 {} {} file.txt\n\u{0}", sha('a'), sha('b'));
    let result = parse_git_status(&line).unwrap();
    assert!(result.staged.is_empty());
    assert_eq!(result.unstaged.len(), 1);
    let unstaged = &result.unstaged[0];
    assert_eq!(unstaged.status, Status::Modified);
    assert_eq!(unstaged.file_mode, Some(0o100644));
}

#[test]
fn both_statuses_set_contributes_to_both_buckets() {
    let line = format!("1 MM N... 100644 100644 100644 {} {} file.txt\n\u{0}", sha('a'), sha('b'));
    let result = parse_git_status(&line).unwrap();
    assert_eq!(result.staged.len(), 1);
    assert_eq!(result.unstaged.len(), 1);
}

#[test]
fn rename_carries_original_path_and_score() {
    let line = format!(
        "2 R. N... 100644 100644 100644 {} {} R100 new.txt\told.txt\n\u{0}",
        sha('a'),
        sha('b')
    );
    let result = parse_git_status(&line).unwrap();
    assert_eq!(result.staged.len(), 1);
    let staged = &result.staged[0];
    assert_eq!(staged.path.as_str(), "new.txt");
    assert_eq!(staged.original_path.as_deref(), Some("old.txt"));
    let score = staged.score.unwrap();
    assert_eq!(score.percentage, 100);
    assert_eq!(staged.status, Status::Renamed);
}

#[test]
fn unmerged_entry_becomes_one_conflict() {
    let line = format!(
        "u UU N... 100644 100755 100644 100644 {} {} {} clash.txt\n\u{0}",
        sha('1'),
        sha('2'),
        sha('3')
    );
    let result = parse_git_status(&line).unwrap();
    assert_eq!(result.conflicts.len(), 1);
    assert!(result.staged.is_empty());
    assert!(result.unstaged.is_empty());
    let conflict = &result.conflicts[0];
    assert_eq!(conflict.path.as_str(), "clash.txt");
    assert_eq!(conflict.ancestor.file_mode, 0o100644);
    assert_eq!(conflict.ancestor.oid.as_str(), sha('1').as_str());
    assert_eq!(conflict.our.file_mode, 0o100755);
    assert_eq!(conflict.our.oid.as_str(), sha('2').as_str());
    assert_eq!(conflict.our.status, Status::Unmerged);
    assert_eq!(conflict.their.oid.as_str(), sha('3').as_str());
    assert_eq!(conflict.worktree_file_mode, 0o100644);
}

#[test]
fn untracked_entry_is_an_added_unstaged_record() {
    let result = parse_git_status("! fresh.txt\n\u{0}").unwrap();
    assert_eq!(result.unstaged.len(), 1);
    let unstaged = &result.unstaged[0];
    assert_eq!(unstaged.path.as_str(), "fresh.txt");
    assert_eq!(unstaged.status, Status::Added);
    assert!(unstaged.file_mode.is_none());
    assert!(unstaged.oids.is_none());
}

#[test]
fn ignored_entry_is_passed_through() {
    let result = parse_git_status("? target\n\u{0}").unwrap();
    assert_eq!(result.ignored.len(), 1);
    assert_eq!(result.ignored[0].path.as_str(), "target");
}

#[test]
fn submodule_field_is_decoded() {
    let line = format!("1 M. SC.U 100644 100644 100644 {} {} sub\n\u{0}", sha('a'), sha('b'));
    let result = parse_git_status(&line).unwrap();
    // staged records blank the live submodule flags
    let staged_sub = result.staged[0].submodule_status.unwrap();
    assert!(!staged_sub.commit_changed);
    assert!(!staged_sub.has_tracked_changes);
    assert!(!staged_sub.has_untracked_changes);

    let line = format!("1 .M SC.U 100644 100644 100644 {} {} sub\n\u{0}", sha('a'), sha('b'));
    let result = parse_git_status(&line).unwrap();
    let unstaged_sub = result.unstaged[0].submodule_status.unwrap();
    assert!(unstaged_sub.commit_changed);
    assert!(!unstaged_sub.has_tracked_changes);
    assert!(unstaged_sub.has_untracked_changes);
}

#[test]
fn several_lines_are_classified_in_order() {
    let text = format!(
        "1 A. N... 000000 100644 100644 {} {} a.txt\n? junk\n! new.txt\n\u{0}",
        sha('0'),
        sha('1')
    );
    let result = parse_git_status(&text).unwrap();
    assert_eq!(result.staged.len(), 1);
    assert_eq!(result.ignored.len(), 1);
    assert_eq!(result.unstaged.len(), 1);
    assert_eq!(result.staged[0].path.as_str(), "a.txt");
    assert_eq!(result.ignored[0].path.as_str(), "junk");
    assert_eq!(result.unstaged[0].path.as_str(), "new.txt");
}

#[test]
fn malformed_status_is_a_parsing_error() {
    match parse_git_status("1 ZZ nonsense\n\u{0}") {
        Err(e) => assert_eq!(e, Error::Process(ProcessError::Parsing)),
        other => panic!("expected a parsing error, got {:?}", other),
    }
    match parse_git_status("no sentinel here") {
        Err(e) => assert_eq!(e, Error::Process(ProcessError::Parsing)),
        other => panic!("expected a parsing error, got {:?}", other),
    }
}

#[test]
fn classifier_drops_entries_with_neither_status() {
    let entry = StatusEntry::OrdinaryStatusEntry(OrdinaryStatusEntry {
        staged_status: None,
        unstaged_status: None,
        submodule_status: None,
        file_mode: FileModeStatus { head: 0, index: 0, worktree: 0 },
        oids: StatusOids { head: sha('a'), index: sha('b') },
        path: "quiet.txt".to_string(),
    });
    let untracked = StatusEntry::UntrackedStatusEntry(UntrackedStatusEntry {
        path: "loud.txt".to_string(),
    });
    let result = build_git_status_output(vec![entry, untracked]);
    assert!(result.staged.is_empty());
    assert!(result.conflicts.is_empty());
    assert!(result.ignored.is_empty());
    assert_eq!(result.unstaged.len(), 1);
    assert_eq!(result.unstaged[0].path.as_str(), "loud.txt");
}
