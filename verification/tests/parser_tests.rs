use gitrs_server::bisect_parse::{parse_bisect, BisectFinish, BisectOutput};
use gitrs_server::error::{Error, ProcessError};
use gitrs_server::log_parse::parse_log;

#[test]
fn bisect_step_is_parsed() {
    let sha = "0123456789abcdef0123456789abcdef01234567";
    let text = format!(
        "Bisecting: 675 revisions left to test after this (roughly 10 steps)\n[{}] commit subject",
        sha
    );
    match parse_bisect(&text) {
        Ok(BisectOutput::Step(st)) => {
            assert_eq!(st.current_commit_sha.as_str(), sha);
            assert_eq!(st.num_revisions_left, 675);
            assert_eq!(st.num_steps_left, 10);
        }
        other => panic!("expected a step, got {:?}", other),
    }
}

#[test]
fn bisect_step_singular_forms_are_accepted() {
    let sha = "f".repeat(40);
    let text = format!(
        "Bisecting: 1 revision left to test after this (roughly 1 step)\n[{}",
        sha
    );
    match parse_bisect(&text) {
        Ok(BisectOutput::Step(st)) => {
            assert_eq!(st.num_revisions_left, 1);
            assert_eq!(st.num_steps_left, 1);
        }
        other => panic!("expected a step, got {:?}", other),
    }
}

#[test]
fn bisect_reached_merge_base_is_parsed() {
    let sha = "a".repeat(40);
    let text = format!("Bisecting: a merge base must be tested\n[{}", sha);
    match parse_bisect(&text) {
        Ok(BisectOutput::ReachedMergeBase(m)) => {
            assert_eq!(m.merge_base_sha.as_str(), sha.as_str());
        }
        other => panic!("expected reached-merge-base, got {:?}", other),
    }
}

#[test]
fn bisect_found_range_discards_the_merge_base_sha() {
    let merge_base = "1".repeat(40);
    let bad = "2".repeat(40);
    let good = "3".repeat(40);
    let text = format!(
        "The merge base {} is bad.\nThis means the bug has been fixed between {} and [{}",
        merge_base, bad, good
    );
    match parse_bisect(&text) {
        Ok(BisectOutput::Finish(BisectFinish::FoundRange(fr))) => {
            assert_eq!(fr.bad_commit_sha.as_str(), bad.as_str());
            assert_eq!(fr.good_commit_sha.as_str(), good.as_str());
        }
        other => panic!("expected a found range, got {:?}", other),
    }
}

#[test]
fn bisect_found_single_is_a_bare_sha() {
    let sha = "0123456789abcdef0123456789abcdef01234567";
    match parse_bisect(sha) {
        Ok(BisectOutput::Finish(BisectFinish::FoundSingle(fs))) => {
            assert_eq!(fs.bad_commit_sha.as_str(), sha);
        }
        other => panic!("expected a found single, got {:?}", other),
    }
}

#[test]
fn bisect_visualize_lists_shas() {
    let a = "a".repeat(40);
    let b = "b".repeat(40);
    let text = format!("sha {}\nsha {}", a, b);
    match parse_bisect(&text) {
        Ok(BisectOutput::Visualize(v)) => {
            assert_eq!(v.shas.len(), 2);
            assert_eq!(v.shas[0].as_str(), a.as_str());
            assert_eq!(v.shas[1].as_str(), b.as_str());
        }
        other => panic!("expected a visualize listing, got {:?}", other),
    }
}

#[test]
fn bisect_garbage_is_a_parsing_error() {
    match parse_bisect("Bisecting: not numbers") {
        Err(e) => assert_eq!(e, Error::Process(ProcessError::Parsing)),
        other => panic!("expected a parsing error, got {:?}", other),
    }
    match parse_bisect("too short") {
        Err(e) => assert_eq!(e, Error::Process(ProcessError::Parsing)),
        other => panic!("expected a parsing error, got {:?}", other),
    }
}

#[test]
fn bisect_overflowing_count_is_rejected() {
    let sha = "c".repeat(40);
    let text = format!(
        "Bisecting: 99999999999 revisions left to test after this (roughly 3 steps)\n[{}",
        sha
    );
    assert!(parse_bisect(&text).is_err());
}

#[test]
fn log_entry_with_two_parents() {
    let sha = "a".repeat(40);
    let p1 = "b".repeat(40);
    let p2 = "c".repeat(40);
    let text = format!(
        "sha {}\nparents {} {}\nauthor Grace\nemail grace@example.com\ndate 2023-05-05\nsummary merge\ndescription long\nbody\u{0}\u{0}\n",
        sha, p1, p2
    );
    let entries = parse_log(&text).unwrap();
    assert_eq!(entries.len(), 1);
    assert_eq!(entries[0].sha.as_str(), sha.as_str());
    assert_eq!(entries[0].parents.len(), 2);
    assert_eq!(entries[0].parents[0].as_str(), p1.as_str());
    assert_eq!(entries[0].parents[1].as_str(), p2.as_str());
    assert_eq!(entries[0].description.as_str(), "long\nbody");
}

#[test]
fn log_entries_are_separated_by_the_sentinel() {
    let a = "1".repeat(40);
    let b = "2".repeat(40);
    let entry = |sha: &str, summary: &str| {
        format!(
            "sha {}\nparents \nauthor A\nemail a@b\ndate d\nsummary {}\ndescription \u{0}\u{0}\n",
            sha, summary
        )
    };
    let text = format!("{}{}", entry(&a, "one"), entry(&b, "two"));
    let entries = parse_log(&text).unwrap();
    assert_eq!(entries.len(), 2);
    assert_eq!(entries[0].summary.as_str(), "one");
    assert_eq!(entries[1].summary.as_str(), "two");
}

#[test]
fn log_of_unrecognised_text_is_empty() {
    // The entry list is greedy: text that opens with no well-formed
    // entry yields no entries rather than an error.
    let entries = parse_log("nothing like a log").unwrap();
    assert!(entries.is_empty());
}
