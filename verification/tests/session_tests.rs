use gitrs_server::bisect;
use gitrs_server::bisect_parse::BisectFinish;
use gitrs_server::echo;
use gitrs_server::error::{Error, InboundMessageError};
use gitrs_server::git_command;
use gitrs_server::log_cmd;
use gitrs_server::merge_base;
use gitrs_server::message;
use gitrs_server::open_repo;
use gitrs_server::session::{Action, ChildExit, ChildOutput, Event, OutboundFrame, Phase, Session};
use gitrs_server::status_cmd;

fn fresh_session() -> Session {
    let (session, actions) = Session::start(7);
    assert_eq!(actions.len(), 2);
    match &actions[0] {
        Action::Send(OutboundFrame::Protocol(message::Outbound::Hello { version })) => {
            assert_eq!(version.major, 0);
            assert_eq!(version.minor, 1);
            assert_eq!(version.patch, 0);
        }
        other => panic!("expected the opening Hello, got {:?}", other),
    }
    assert_eq!(actions[1], Action::Recv);
    session
}

fn session_in_loop() -> Session {
    let mut session = fresh_session();
    let actions = session.step(Event::Message(message::Inbound::Hello));
    assert_eq!(actions.len(), 2);
    assert_eq!(
        actions[0],
        Action::Send(OutboundFrame::Protocol(message::Outbound::GladToMeetYou))
    );
    assert_eq!(actions[1], Action::Recv);
    session
}

fn session_with_repo(path: &str) -> Session {
    let mut session = session_in_loop();
    let actions = session.step(Event::Message(message::Inbound::GitCommand(
        git_command::Inbound::OpenRepo { path: path.to_string() },
    )));
    assert_eq!(actions.len(), 1);
    match &actions[0] {
        Action::Probe(p) => assert_eq!(p.as_str(), format!("{}/.git", path)),
        other => panic!("expected a probe, got {:?}", other),
    }
    let actions = session.step(Event::Probe(open_repo::PathProbe::Directory));
    assert_eq!(
        actions[0],
        Action::Send(OutboundFrame::OpenRepo(open_repo::OutboundMessage::Success))
    );
    assert_eq!(session.repo_path.as_deref(), Some(path));
    session
}

fn child(exit: ChildExit, stdout: &str, stderr: &str) -> Event {
    Event::Child(ChildOutput {
        exit,
        stdout: Some(stdout.to_string()),
        stderr: Some(stderr.to_string()),
    })
}

#[test]
fn first_frame_is_hello_with_version() {
    fresh_session();
}

#[test]
fn non_hello_before_handshake_ends_silently() {
    let mut session = fresh_session();
    let actions = session.step(Event::Message(message::Inbound::Goodbye));
    assert_eq!(actions.len(), 1);
    assert_eq!(
        actions[0],
        Action::End(Some(Error::InboundMessage(InboundMessageError::Unexpected)))
    );
    assert!(matches!(session.phase, Phase::Ended));
}

#[test]
fn goodbye_closes_cleanly() {
    let mut session = session_in_loop();
    let actions = session.step(Event::Message(message::Inbound::Goodbye));
    assert_eq!(actions.len(), 2);
    match &actions[0] {
        Action::Send(OutboundFrame::Protocol(message::Outbound::Goodbye { error_code })) => {
            assert!(error_code.is_none());
        }
        other => panic!("expected the final Goodbye, got {:?}", other),
    }
    assert_eq!(actions[1], Action::End(None));
}

#[test]
fn echo_round_trip() {
    let mut session = session_in_loop();
    let actions = session.step(Event::Message(message::Inbound::GitCommand(
        git_command::Inbound::Echo { input: "hi".to_string() },
    )));
    assert_eq!(actions.len(), 1);
    match &actions[0] {
        Action::Run(inv) => {
            assert_eq!(inv.program.as_str(), "echo");
            assert_eq!(inv.args.len(), 1);
            assert_eq!(inv.args[0].as_str(), "hi");
            assert!(inv.cwd.is_none());
        }
        other => panic!("expected the echo child, got {:?}", other),
    }
    let actions = session.step(child(ChildExit::Code(0), "hi\n", ""));
    assert_eq!(actions.len(), 2);
    match &actions[0] {
        Action::Send(OutboundFrame::Echo(echo::Outbound::Result { output })) => {
            assert_eq!(output.as_str(), "hi\n");
        }
        other => panic!("expected the echo reply, got {:?}", other),
    }
    assert_eq!(actions[1], Action::Recv);
    assert!(matches!(session.phase, Phase::AwaitCommand));
}

#[test]
fn open_repo_relative_path_is_rejected() {
    let mut session = session_in_loop();
    let actions = session.step(Event::Message(message::Inbound::GitCommand(
        git_command::Inbound::OpenRepo { path: "relative/path".to_string() },
    )));
    assert_eq!(actions.len(), 2);
    assert_eq!(
        actions[0],
        Action::Send(OutboundFrame::OpenRepo(open_repo::OutboundMessage::Error(
            open_repo::ErrorReason::MustBeAbsolutePath
        )))
    );
    assert_eq!(actions[1], Action::Recv);
    assert!(session.repo_path.is_none());
    assert!(matches!(session.phase, Phase::AwaitCommand));
}

#[test]
fn open_repo_missing_and_non_directory() {
    let mut session = session_in_loop();
    session.step(Event::Message(message::Inbound::GitCommand(
        git_command::Inbound::OpenRepo { path: "/tmp/a".to_string() },
    )));
    let actions = session.step(Event::Probe(open_repo::PathProbe::Missing));
    assert_eq!(
        actions[0],
        Action::Send(OutboundFrame::OpenRepo(open_repo::OutboundMessage::Error(
            open_repo::ErrorReason::InvalidPath
        )))
    );
    assert!(session.repo_path.is_none());

    session.step(Event::Message(message::Inbound::GitCommand(
        git_command::Inbound::OpenRepo { path: "/tmp/b".to_string() },
    )));
    let actions = session.step(Event::Probe(open_repo::PathProbe::NotDirectory));
    assert_eq!(
        actions[0],
        Action::Send(OutboundFrame::OpenRepo(open_repo::OutboundMessage::Error(
            open_repo::ErrorReason::IsNotRepo
        )))
    );
    assert!(session.repo_path.is_none());
}

#[test]
fn status_of_clean_working_copy_is_empty() {
    let mut session = session_with_repo("/work/repo");
    let actions = session.step(Event::Message(message::Inbound::GitCommand(
        git_command::Inbound::Status,
    )));
    match &actions[0] {
        Action::Run(inv) => {
            assert_eq!(inv.program.as_str(), "git");
            let args: Vec<&str> = inv.args.iter().map(|a| a.as_str()).collect();
            assert_eq!(
                args,
                vec!["--no-pager", "status", "--porcelain=v2", "--untracked-files"]
            );
            assert_eq!(inv.cwd.as_deref(), Some("/work/repo"));
        }
        other => panic!("expected the status child, got {:?}", other),
    }
    let actions = session.step(child(ChildExit::Code(0), "", ""));
    assert_eq!(actions.len(), 2);
    match &actions[0] {
        Action::Send(OutboundFrame::Status(status_cmd::OutboundMessage::Success { status })) => {
            assert!(status.conflicts.is_empty());
            assert!(status.ignored.is_empty());
            assert!(status.staged.is_empty());
            assert!(status.unstaged.is_empty());
        }
        other => panic!("expected the empty status, got {:?}", other),
    }
    assert_eq!(actions[1], Action::Recv);
}

#[test]
fn status_without_repo_is_an_error_reply() {
    let mut session = session_in_loop();
    let actions = session.step(Event::Message(message::Inbound::GitCommand(
        git_command::Inbound::Status,
    )));
    assert_eq!(
        actions[0],
        Action::Send(OutboundFrame::Status(status_cmd::OutboundMessage::Error(
            status_cmd::ErrorReason::RepoPathNotSet
        )))
    );
    assert!(matches!(session.phase, Phase::AwaitCommand));
}

#[test]
fn merge_base_is_ancestor_true() {
    let a = "a".repeat(40);
    let d = "d".repeat(40);
    let mut session = session_with_repo("/work/repo");
    let actions = session.step(Event::Message(message::Inbound::GitCommand(
        git_command::Inbound::MergeBase(merge_base::Inbound::IsAncestor {
            ancestor_sha: a.clone(),
            descendant_sha: d.clone(),
        }),
    )));
    match &actions[0] {
        Action::Run(inv) => {
            let args: Vec<&str> = inv.args.iter().map(|x| x.as_str()).collect();
            assert_eq!(
                args,
                vec!["--no-pager", "merge-base", "--is-ancestor", a.as_str(), d.as_str()]
            );
        }
        other => panic!("expected the merge-base child, got {:?}", other),
    }
    let actions = session.step(child(ChildExit::Code(0), "", ""));
    assert_eq!(
        actions[0],
        Action::Send(OutboundFrame::MergeBase(merge_base::OutboundMessage::Success {
            is_ancestor: true
        }))
    );
    assert_eq!(actions[1], Action::Recv);
}

#[test]
fn merge_base_exit_codes() {
    let a = "1".repeat(40);
    let d = "2".repeat(40);
    let mut session = session_with_repo("/work/repo");
    session.step(Event::Message(message::Inbound::GitCommand(git_command::Inbound::MergeBase(
        merge_base::Inbound::IsAncestor { ancestor_sha: a.clone(), descendant_sha: d.clone() },
    ))));
    let actions = session.step(child(ChildExit::Code(1), "", ""));
    assert_eq!(
        actions[0],
        Action::Send(OutboundFrame::MergeBase(merge_base::OutboundMessage::Success {
            is_ancestor: false
        }))
    );
    session.step(Event::Message(message::Inbound::GitCommand(git_command::Inbound::MergeBase(
        merge_base::Inbound::IsAncestor { ancestor_sha: a, descendant_sha: d },
    ))));
    let actions = session.step(child(ChildExit::Code(128), "", ""));
    assert_eq!(
        actions[0],
        Action::Send(OutboundFrame::MergeBase(merge_base::OutboundMessage::Error(
            merge_base::ErrorReason::ShaIsNotACommit
        )))
    );
}

#[test]
fn merge_base_rejects_bad_shas() {
    let mut session = session_with_repo("/work/repo");
    let actions = session.step(Event::Message(message::Inbound::GitCommand(
        git_command::Inbound::MergeBase(merge_base::Inbound::IsAncestor {
            ancestor_sha: "nope".to_string(),
            descendant_sha: "f".repeat(40),
        }),
    )));
    assert_eq!(
        actions[0],
        Action::Send(OutboundFrame::MergeBase(merge_base::OutboundMessage::Error(
            merge_base::ErrorReason::AncestorMustBeASha
        )))
    );
    let actions = session.step(Event::Message(message::Inbound::GitCommand(
        git_command::Inbound::MergeBase(merge_base::Inbound::IsAncestor {
            ancestor_sha: "f".repeat(40),
            descendant_sha: "short".to_string(),
        }),
    )));
    assert_eq!(
        actions[0],
        Action::Send(OutboundFrame::MergeBase(merge_base::OutboundMessage::Error(
            merge_base::ErrorReason::DescendantMustBeASha
        )))
    );
}

#[test]
fn log_with_empty_stdout_reports_no_commits() {
    let mut session = session_with_repo("/work/repo");
    let actions = session.step(Event::Message(message::Inbound::GitCommand(
        git_command::Inbound::Log,
    )));
    match &actions[0] {
        Action::Run(inv) => {
            assert_eq!(inv.args[1].as_str(), "log");
            assert!(inv.args[2].as_str().starts_with("--format=sha %H"));
        }
        other => panic!("expected the log child, got {:?}", other),
    }
    let actions = session.step(child(ChildExit::Code(0), "", ""));
    assert_eq!(
        actions[0],
        Action::Send(OutboundFrame::Log(log_cmd::OutboundMessage::Error(
            log_cmd::ErrorReason::RepoHasNoCommits
        )))
    );
    assert!(matches!(session.phase, Phase::AwaitCommand));
}

#[test]
fn log_with_one_commit_is_parsed() {
    let sha = "c".repeat(40);
    let text = format!(
        "sha {}\nparents \nauthor Ada\nemail ada@example.com\ndate 2024-01-01\nsummary first\ndescription body\u{0}\u{0}\n",
        sha
    );
    let mut session = session_with_repo("/work/repo");
    session.step(Event::Message(message::Inbound::GitCommand(git_command::Inbound::Log)));
    let actions = session.step(child(ChildExit::Code(0), &text, ""));
    match &actions[0] {
        Action::Send(OutboundFrame::Log(log_cmd::OutboundMessage::Success { log })) => {
            assert_eq!(log.len(), 1);
            assert_eq!(log[0].sha.as_str(), sha.as_str());
            assert_eq!(log[0].author.as_str(), "Ada");
            assert_eq!(log[0].email.as_str(), "ada@example.com");
            assert_eq!(log[0].summary.as_str(), "first");
            assert_eq!(log[0].description.as_str(), "body");
            assert!(log[0].parents.is_empty());
        }
        other => panic!("expected the parsed log, got {:?}", other),
    }
}

#[test]
fn bisect_happy_path() {
    let step_sha = "e".repeat(40);
    let bad_sha = "b".repeat(40);
    let good_sha = "9".repeat(40);
    let mut session = session_with_repo("/work/repo");
    let actions = session.step(Event::Message(message::Inbound::GitCommand(
        git_command::Inbound::Bisect { bad: "badref".to_string(), good: "goodref".to_string() },
    )));
    match &actions[0] {
        Action::Run(inv) => {
            let args: Vec<&str> = inv.args.iter().map(|x| x.as_str()).collect();
            assert_eq!(args, vec!["--no-pager", "bisect", "log"]);
        }
        other => panic!("expected the bisect preflight, got {:?}", other),
    }
    // the preflight failing means no bisection is in progress
    let actions = session.step(child(ChildExit::Code(1), "", ""));
    match &actions[0] {
        Action::Run(inv) => {
            let args: Vec<&str> = inv.args.iter().map(|x| x.as_str()).collect();
            assert_eq!(
                args,
                vec!["--no-pager", "bisect", "start", "badref", "goodref", "--"]
            );
        }
        other => panic!("expected bisect start, got {:?}", other),
    }
    let step_text = format!(
        "Bisecting: 7 revisions left to test after this (roughly 3 steps)\n[{}",
        step_sha
    );
    let actions = session.step(child(ChildExit::Code(0), &step_text, ""));
    assert_eq!(actions.len(), 2);
    match &actions[0] {
        Action::Send(OutboundFrame::Bisect(bisect::OutboundMessage::Step(st))) => {
            assert_eq!(st.current_commit_sha.as_str(), step_sha.as_str());
            assert_eq!(st.num_revisions_left, 7);
            assert_eq!(st.num_steps_left, 3);
        }
        other => panic!("expected the bisect step, got {:?}", other),
    }
    assert_eq!(actions[1], Action::RecvBisect);
    let actions = session.step(Event::BisectMessage(bisect::InboundMessage::Good));
    match &actions[0] {
        Action::Run(inv) => {
            let args: Vec<&str> = inv.args.iter().map(|x| x.as_str()).collect();
            assert_eq!(args, vec!["--no-pager", "bisect", "good"]);
        }
        other => panic!("expected bisect good, got {:?}", other),
    }
    let finish_text = format!(
        "The merge base {} is bad.\nThis means the bug has been fixed between {} and [{}",
        "a".repeat(40),
        bad_sha,
        good_sha
    );
    let actions = session.step(child(ChildExit::Code(0), &finish_text, ""));
    match &actions[0] {
        Action::Run(inv) => {
            let args: Vec<&str> = inv.args.iter().map(|x| x.as_str()).collect();
            assert_eq!(args, vec!["--no-pager", "bisect", "reset"]);
        }
        other => panic!("expected bisect reset, got {:?}", other),
    }
    let actions = session.step(child(ChildExit::Code(0), "reset done", ""));
    match &actions[0] {
        Action::Send(OutboundFrame::Bisect(bisect::OutboundMessage::Finish(
            BisectFinish::FoundRange(fr),
        ))) => {
            assert_eq!(fr.bad_commit_sha.as_str(), bad_sha.as_str());
            assert_eq!(fr.good_commit_sha.as_str(), good_sha.as_str());
        }
        other => panic!("expected the finish, got {:?}", other),
    }
    assert_eq!(actions[1], Action::Recv);
    assert!(matches!(session.phase, Phase::AwaitCommand));
}

#[test]
fn bisect_already_in_progress() {
    let mut session = session_with_repo("/work/repo");
    session.step(Event::Message(message::Inbound::GitCommand(git_command::Inbound::Bisect {
        bad: "x".to_string(),
        good: "y".to_string(),
    })));
    // exit code 0 from `git bisect log` means a bisection is in progress
    let actions = session.step(child(ChildExit::Code(0), "log", ""));
    assert_eq!(actions.len(), 2);
    assert_eq!(
        actions[0],
        Action::Send(OutboundFrame::Bisect(bisect::OutboundMessage::Error(
            bisect::BisectError::AlreadyBisecting
        )))
    );
    assert_eq!(actions[1], Action::Recv);
    assert!(matches!(session.phase, Phase::AwaitCommand));
}

#[test]
fn bisect_without_repo_is_an_error_reply() {
    let mut session = session_in_loop();
    let actions = session.step(Event::Message(message::Inbound::GitCommand(
        git_command::Inbound::Bisect { bad: "x".to_string(), good: "y".to_string() },
    )));
    assert_eq!(
        actions[0],
        Action::Send(OutboundFrame::Bisect(bisect::OutboundMessage::Error(
            bisect::BisectError::RepoPathNotSet
        )))
    );
    assert!(matches!(session.phase, Phase::AwaitCommand));
}

#[test]
fn bisect_client_reset_reports_success() {
    let step_sha = "e".repeat(40);
    let mut session = session_with_repo("/work/repo");
    session.step(Event::Message(message::Inbound::GitCommand(git_command::Inbound::Bisect {
        bad: "x".to_string(),
        good: "y".to_string(),
    })));
    session.step(child(ChildExit::Code(1), "", ""));
    let step_text = format!(
        "Bisecting: 2 revisions left to test after this (roughly 1 step)\n[{}",
        step_sha
    );
    session.step(child(ChildExit::Code(0), &step_text, ""));
    let actions = session.step(Event::BisectMessage(bisect::InboundMessage::Reset));
    match &actions[0] {
        Action::Run(inv) => {
            let args: Vec<&str> = inv.args.iter().map(|x| x.as_str()).collect();
            assert_eq!(args, vec!["--no-pager", "bisect", "reset"]);
        }
        other => panic!("expected bisect reset, got {:?}", other),
    }
    let actions = session.step(child(ChildExit::Code(0), "done", ""));
    assert_eq!(
        actions[0],
        Action::Send(OutboundFrame::Bisect(bisect::OutboundMessage::Success))
    );
    assert!(matches!(session.phase, Phase::AwaitCommand));
}

#[test]
fn bisect_output_falls_back_to_stderr() {
    let sha = "7".repeat(40);
    let mut session = session_with_repo("/work/repo");
    session.step(Event::Message(message::Inbound::GitCommand(git_command::Inbound::Bisect {
        bad: "x".to_string(),
        good: "y".to_string(),
    })));
    session.step(child(ChildExit::Code(1), "", ""));
    let text = format!(
        "Bisecting: a merge base must be tested\n[{}",
        sha
    );
    // stdout empty: the handler reads stderr instead
    let actions = session.step(child(ChildExit::Code(0), "", &text));
    match &actions[0] {
        Action::Send(OutboundFrame::Bisect(bisect::OutboundMessage::ReachedMergeBase(m))) => {
            assert_eq!(m.merge_base_sha.as_str(), sha.as_str());
        }
        other => panic!("expected reached-merge-base, got {:?}", other),
    }
}

#[test]
fn unparsable_bisect_output_ends_the_session() {
    let mut session = session_with_repo("/work/repo");
    session.step(Event::Message(message::Inbound::GitCommand(git_command::Inbound::Bisect {
        bad: "x".to_string(),
        good: "y".to_string(),
    })));
    session.step(child(ChildExit::Code(1), "", ""));
    let actions = session.step(child(ChildExit::Code(0), "not bisect output", ""));
    assert_eq!(actions.len(), 1);
    assert_eq!(
        actions[0],
        Action::End(Some(Error::Process(gitrs_server::error::ProcessError::Parsing)))
    );
    assert!(matches!(session.phase, Phase::Ended));
}

#[test]
fn session_open_uses_a_version_four_id() {
    let (session, _) = Session::open();
    assert_eq!((session.id >> 76) & 0xf, 4);
    assert_eq!((session.id >> 62) & 0x3, 2);
}

#[test]
fn hello_inside_the_command_loop_is_unexpected() {
    let mut session = session_in_loop();
    let actions = session.step(Event::Message(message::Inbound::Hello));
    assert_eq!(actions.len(), 1);
    assert_eq!(
        actions[0],
        Action::End(Some(Error::InboundMessage(InboundMessageError::Unexpected)))
    );
    assert!(matches!(session.phase, Phase::Ended));
}

#[test]
fn spawn_failure_ends_the_session() {
    let mut session = session_in_loop();
    session.step(Event::Message(message::Inbound::GitCommand(git_command::Inbound::Echo {
        input: "x".to_string(),
    })));
    let actions = session.step(Event::Child(ChildOutput {
        exit: ChildExit::SpawnFailed,
        stdout: Some(String::new()),
        stderr: Some(String::new()),
    }));
    assert_eq!(actions.len(), 1);
    assert_eq!(
        actions[0],
        Action::End(Some(Error::Process(gitrs_server::error::ProcessError::Failed)))
    );
    assert!(matches!(session.phase, Phase::Ended));
}

#[test]
fn undecodable_output_ends_the_session() {
    let mut session = session_in_loop();
    session.step(Event::Message(message::Inbound::GitCommand(git_command::Inbound::Echo {
        input: "x".to_string(),
    })));
    // `None` stands for stdout bytes that were not valid UTF-8
    let actions = session.step(Event::Child(ChildOutput {
        exit: ChildExit::Code(0),
        stdout: None,
        stderr: Some(String::new()),
    }));
    assert_eq!(
        actions[0],
        Action::End(Some(Error::Process(gitrs_server::error::ProcessError::Encoding)))
    );
    assert!(matches!(session.phase, Phase::Ended));
}
