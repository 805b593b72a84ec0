//! The per-connection protocol state machine.
//!
//! A session is driven by the embedding binary: it hands the machine one
//! event at a time (a decoded inbound frame, a child process's outcome,
//! a path probe) and performs the returned actions in order — sending
//! frames, running `git`, probing a path, reading the next frame, or
//! closing the connection. The machine owns every decision: the
//! handshake, command dispatch, each handler's replies, and the
//! interactive bisect sub-conversation.
//!
//! Each transition is pinned by a spec-level relation
//! (`step_transition`); the laws about the protocol (silent rejection
//! before the handshake, one reply per command, error replies keeping
//! the session alive) are proved about that relation.

use vstd::prelude::*;
use crate::bisect;
use crate::bisect_parse::{
    parse_bisect, sp_parse_bisect, BisectFinish, BisectFoundRange, BisectFoundSingle,
    BisectOutput, SpecBisect,
};
use crate::echo;
use crate::error::{Error, InboundMessageError, ProcessError};
use crate::git::{is_sha, verify_string_is_sha};
use crate::git_command;
use crate::log_cmd;
use crate::log_parse::{parse_log, sp_log_entries};
use crate::merge_base;
use crate::message::{self, protocol_version, Version};
use crate::open_repo::{self, is_absolute_path, path_is_absolute, PathProbe};
use crate::status_cmd;
use crate::status_entry::{parse_git_status, sp_parse_git_status};

verus! {

/// One child process to run: a program, its arguments, and the working
/// directory, if any. The embedding binary adds the configured
/// environment (`PATH`, `GIT_EXEC_PATH`).
#[derive(Debug, Clone, PartialEq)]
pub struct GitInvocation {
    pub program: String,
    pub args: Vec<String>,
    pub cwd: Option<String>,
}

/// Any frame the server sends, over all handlers.
#[derive(Debug, Clone, PartialEq)]
pub enum OutboundFrame {
    Protocol(message::Outbound),
    Echo(echo::Outbound),
    OpenRepo(open_repo::OutboundMessage),
    Log(log_cmd::OutboundMessage),
    Status(status_cmd::OutboundMessage),
    MergeBase(merge_base::OutboundMessage),
    Bisect(bisect::OutboundMessage),
}

/// What the embedding binary must do next, in order.
#[derive(Debug, Clone, PartialEq)]
pub enum Action {
    /// Send a frame to the client.
    Send(OutboundFrame),
    /// Run a child process and report its outcome as a `Child` event.
    Run(GitInvocation),
    /// Examine the path and report a `Probe` event.
    Probe(String),
    /// Read the next top-level frame and report a `Message` event.
    Recv,
    /// Read the next bisect reply and report a `BisectMessage` event.
    RecvBisect,
    /// Close the connection: cleanly (`None`) or on a shared error.
    End(Option<Error>),
}

/// How a child process ended.
#[derive(Debug, Clone, Copy, PartialEq, Eq, Structural)]
pub enum ChildExit {
    /// It could not be spawned or waited on.
    SpawnFailed,
    /// It ended without a waitable exit code.
    NoStatus,
    /// It exited with this code.
    Code(i32),
}

/// A child process's outcome. `None` for an output stream means its
/// bytes were not valid UTF-8; a failed spawn carries empty streams.
#[derive(Debug, Clone, PartialEq)]
pub struct ChildOutput {
    pub exit: ChildExit,
    pub stdout: Option<String>,
    pub stderr: Option<String>,
}

/// One event handed to the state machine.
#[derive(Debug, Clone, PartialEq)]
pub enum Event {
    /// A decoded top-level frame.
    Message(message::Inbound),
    /// A decoded bisect reply.
    BisectMessage(bisect::InboundMessage),
    /// A child process's outcome.
    Child(ChildOutput),
    /// What a path probe found.
    Probe(PathProbe),
}

/// Where the session stands.
#[derive(Debug, Clone, PartialEq)]
pub enum Phase {
    /// `Hello` sent; awaiting the client's `Hello`.
    AwaitHello,
    /// In the command loop; awaiting the next command.
    AwaitCommand,
    /// `echo` is running.
    EchoRunning,
    /// Awaiting the probe of `path + "/.git"`.
    OpenRepoProbing { path: String },
    /// `git log` is running.
    LogRunning,
    /// `git status` is running.
    StatusRunning,
    /// `git merge-base --is-ancestor` is running.
    MergeBaseRunning,
    /// `git bisect log` (the already-bisecting preflight) is running.
    BisectCheckingLog { bad: String, good: String },
    /// A bisect subcommand is running; its output will be parsed.
    BisectAwaitingOutput,
    /// A step was sent; awaiting the client's bisect reply.
    BisectAwaitingClient,
    /// `git bisect reset` is running after a finish was parsed.
    BisectResetting { finish: BisectFinish },
    /// `git bisect reset` is running after the client asked to reset.
    BisectResettingAfterReset,
    /// The connection is closed.
    Ended,
}

/// One session's state: its identity, the opened working copy, and the
/// protocol phase.
#[derive(Debug, Clone, PartialEq)]
pub struct Session {
    pub id: u128,
    pub repo_path: Option<String>,
    pub phase: Phase,
}

/// Phases whose next actions run `git` in the working copy.
pub open spec fn needs_repo(p: Phase) -> bool {
    match p {
        Phase::LogRunning => true,
        Phase::StatusRunning => true,
        Phase::MergeBaseRunning => true,
        Phase::BisectCheckingLog { .. } => true,
        Phase::BisectAwaitingOutput => true,
        Phase::BisectAwaitingClient => true,
        Phase::BisectResetting { .. } => true,
        Phase::BisectResettingAfterReset => true,
        _ => false,
    }
}

impl Session {
    /// A session in a repo-scoped phase has a working copy opened.
    pub open spec fn wf(self) -> bool {
        needs_repo(self.phase) ==> self.repo_path is Some
    }
}

/// A phase inside one command's sub-conversation.
pub open spec fn is_handler_phase(p: Phase) -> bool {
    !(p is AwaitHello || p is AwaitCommand || p is Ended)
}

/// Which events may arrive in which phase. The embedding binary
/// guarantees this by reading what the last action asked for.
pub open spec fn event_fits(p: Phase, e: Event) -> bool {
    match p {
        Phase::AwaitHello => e is Message,
        Phase::AwaitCommand => e is Message,
        Phase::EchoRunning => e is Child,
        Phase::OpenRepoProbing { .. } => e is Probe,
        Phase::LogRunning => e is Child,
        Phase::StatusRunning => e is Child,
        Phase::MergeBaseRunning => e is Child,
        Phase::BisectCheckingLog { .. } => e is Child,
        Phase::BisectAwaitingOutput => e is Child,
        Phase::BisectAwaitingClient => e is BisectMessage,
        Phase::BisectResetting { .. } => e is Child,
        Phase::BisectResettingAfterReset => e is Child,
        Phase::Ended => false,
    }
}

/// `a` runs `program` with exactly these arguments in this directory.
pub open spec fn is_run(
    a: Action,
    program: Seq<char>,
    args: Seq<Seq<char>>,
    cwd: Option<Seq<char>>,
) -> bool {
    &&& a matches Action::Run(inv)
    &&& inv.program@ == program
    &&& inv.args.deep_view() == args
    &&& match (inv.cwd, cwd) {
        (Some(c), Some(w)) => c@ == w,
        (None, None) => true,
        _ => false,
    }
}

/// How many frames the actions send.
pub open spec fn send_count(acts: Seq<Action>) -> nat
    decreases acts.len(),
{
    if acts.len() == 0 {
        0
    } else {
        send_count(acts.drop_last()) + if acts.last() is Send {
            1nat
        } else {
            0nat
        }
    }
}

/// A handler's own `Error{reason}` reply, of any command.
pub open spec fn is_error_frame(f: OutboundFrame) -> bool {
    ||| f matches OutboundFrame::OpenRepo(open_repo::OutboundMessage::Error(_))
    ||| f matches OutboundFrame::Log(log_cmd::OutboundMessage::Error(_))
    ||| f matches OutboundFrame::Status(status_cmd::OutboundMessage::Error(_))
    ||| f matches OutboundFrame::MergeBase(merge_base::OutboundMessage::Error(_))
    ||| f matches OutboundFrame::Bisect(bisect::OutboundMessage::Error(_))
}

/// Whether the actions send some handler `Error{reason}` reply.
pub open spec fn sends_error(acts: Seq<Action>) -> bool {
    exists|i: int|
        0 <= i < acts.len() && ((#[trigger] acts[i]) matches Action::Send(f) && is_error_frame(f))
}

/// Identity and working copy are untouched.
pub open spec fn same_core(s: Session, s2: Session) -> bool {
    s2.id == s.id && s2.repo_path == s.repo_path
}

/// The session ends on a shared error: nothing is sent.
pub open spec fn ended_with(s: Session, s2: Session, acts: Seq<Action>, err: Error) -> bool {
    &&& same_core(s, s2)
    &&& s2.phase is Ended
    &&& acts.len() == 1
    &&& acts[0] == Action::End(Some(err))
}

/// One frame is sent and the session returns to the command loop.
pub open spec fn reply_and_loop(s: Session, s2: Session, acts: Seq<Action>, f: OutboundFrame) -> bool {
    &&& same_core(s, s2)
    &&& s2.phase is AwaitCommand
    &&& acts.len() == 2
    &&& acts[0] == Action::Send(f)
    &&& acts[1] == Action::Recv
}

/// The format argument handed to `git log`.
pub open spec fn log_format_arg() -> Seq<char> {
    "--format=sha %H%nparents %P%nauthor %an%nemail %ae%ndate %ai%nsummary %s%ndescription %b%x00%x00"@
}

/// The format argument handed to `git bisect visualize`.
pub open spec fn visualize_format_arg() -> Seq<char> {
    "--format=sha %H"@
}

/// The handshake: the client's `Hello` opens the command loop; anything
/// else ends the session without a further frame.
pub open spec fn handshake_transition(
    s: Session,
    m: message::Inbound,
    s2: Session,
    acts: Seq<Action>,
) -> bool {
    match m {
        message::Inbound::Hello => {
            &&& same_core(s, s2)
            &&& s2.phase is AwaitCommand
            &&& acts.len() == 2
            &&& acts[0] == Action::Send(
                OutboundFrame::Protocol(message::Outbound::GladToMeetYou),
            )
            &&& acts[1] == Action::Recv
        },
        _ => ended_with(
            s,
            s2,
            acts,
            Error::InboundMessage(InboundMessageError::Unexpected),
        ),
    }
}

/// Routing one command to its handler's opening move.
pub open spec fn dispatch_transition(
    s: Session,
    c: git_command::Inbound,
    s2: Session,
    acts: Seq<Action>,
) -> bool {
    match c {
        git_command::Inbound::Echo { input } => {
            &&& same_core(s, s2)
            &&& s2.phase is EchoRunning
            &&& acts.len() == 1
            &&& is_run(acts[0], "echo"@, seq![input@], None)
        },
        git_command::Inbound::OpenRepo { path } => {
            if !is_absolute_path(path@) {
                reply_and_loop(
                    s,
                    s2,
                    acts,
                    OutboundFrame::OpenRepo(
                        open_repo::OutboundMessage::Error(
                            open_repo::ErrorReason::MustBeAbsolutePath,
                        ),
                    ),
                )
            } else {
                &&& same_core(s, s2)
                &&& s2.phase matches Phase::OpenRepoProbing { path: p } && p == path
                &&& acts.len() == 1
                &&& acts[0] matches Action::Probe(q) && q@ == path@ + "/.git"@
            }
        },
        git_command::Inbound::Log => {
            match s.repo_path {
                None => reply_and_loop(
                    s,
                    s2,
                    acts,
                    OutboundFrame::Log(
                        log_cmd::OutboundMessage::Error(log_cmd::ErrorReason::RepoPathNotSet),
                    ),
                ),
                Some(repo) => {
                    &&& same_core(s, s2)
                    &&& s2.phase is LogRunning
                    &&& acts.len() == 1
                    &&& is_run(
                        acts[0],
                        "git"@,
                        seq!["--no-pager"@, "log"@, log_format_arg()],
                        Some(repo@),
                    )
                },
            }
        },
        git_command::Inbound::Status => {
            match s.repo_path {
                None => reply_and_loop(
                    s,
                    s2,
                    acts,
                    OutboundFrame::Status(
                        status_cmd::OutboundMessage::Error(
                            status_cmd::ErrorReason::RepoPathNotSet,
                        ),
                    ),
                ),
                Some(repo) => {
                    &&& same_core(s, s2)
                    &&& s2.phase is StatusRunning
                    &&& acts.len() == 1
                    &&& is_run(
                        acts[0],
                        "git"@,
                        seq!["--no-pager"@, "status"@, "--porcelain=v2"@, "--untracked-files"@],
                        Some(repo@),
                    )
                },
            }
        },
        git_command::Inbound::MergeBase(mb) => {
            match mb {
                merge_base::Inbound::IsAncestor { ancestor_sha, descendant_sha } => {
                    if !is_sha(ancestor_sha@) {
                        reply_and_loop(
                            s,
                            s2,
                            acts,
                            OutboundFrame::MergeBase(
                                merge_base::OutboundMessage::Error(
                                    merge_base::ErrorReason::AncestorMustBeASha,
                                ),
                            ),
                        )
                    } else if !is_sha(descendant_sha@) {
                        reply_and_loop(
                            s,
                            s2,
                            acts,
                            OutboundFrame::MergeBase(
                                merge_base::OutboundMessage::Error(
                                    merge_base::ErrorReason::DescendantMustBeASha,
                                ),
                            ),
                        )
                    } else {
                        match s.repo_path {
                            None => reply_and_loop(
                                s,
                                s2,
                                acts,
                                OutboundFrame::MergeBase(
                                    merge_base::OutboundMessage::Error(
                                        merge_base::ErrorReason::RepoPathNotSet,
                                    ),
                                ),
                            ),
                            Some(repo) => {
                                &&& same_core(s, s2)
                                &&& s2.phase is MergeBaseRunning
                                &&& acts.len() == 1
                                &&& is_run(
                                    acts[0],
                                    "git"@,
                                    seq![
                                        "--no-pager"@,
                                        "merge-base"@,
                                        "--is-ancestor"@,
                                        ancestor_sha@,
                                        descendant_sha@,
                                    ],
                                    Some(repo@),
                                )
                            },
                        }
                    }
                },
            }
        },
        git_command::Inbound::Bisect { bad, good } => {
            match s.repo_path {
                None => reply_and_loop(
                    s,
                    s2,
                    acts,
                    OutboundFrame::Bisect(
                        bisect::OutboundMessage::Error(bisect::BisectError::RepoPathNotSet),
                    ),
                ),
                Some(repo) => {
                    &&& same_core(s, s2)
                    &&& s2.phase matches Phase::BisectCheckingLog { bad: b, good: g } && b == bad
                        && g == good
                    &&& acts.len() == 1
                    &&& is_run(
                        acts[0],
                        "git"@,
                        seq!["--no-pager"@, "bisect"@, "log"@],
                        Some(repo@),
                    )
                },
            }
        },
    }
}

/// The command loop: `Goodbye` closes cleanly, a command is dispatched,
/// anything else is a protocol error.
pub open spec fn command_transition(
    s: Session,
    m: message::Inbound,
    s2: Session,
    acts: Seq<Action>,
) -> bool {
    match m {
        message::Inbound::Goodbye => {
            &&& same_core(s, s2)
            &&& s2.phase is Ended
            &&& acts.len() == 2
            &&& acts[0] == Action::Send(
                OutboundFrame::Protocol(message::Outbound::Goodbye { error_code: None }),
            )
            &&& acts[1] == Action::End(None)
        },
        message::Inbound::GitCommand(c) => dispatch_transition(s, c, s2, acts),
        message::Inbound::Hello => ended_with(
            s,
            s2,
            acts,
            Error::InboundMessage(InboundMessageError::Unexpected),
        ),
    }
}

/// The text a handler reads from a child: stdout, or stderr when stdout
/// is empty. `None` means the chosen stream was not valid UTF-8.
pub open spec fn selected_output(out: ChildOutput) -> Option<String> {
    match out.stdout {
        Some(o) => if o@.len() == 0 {
            out.stderr
        } else {
            out.stdout
        },
        None => out.stdout,
    }
}

/// The echo handler: the child's stdout, decoded, is the reply.
pub open spec fn echo_transition(
    s: Session,
    out: ChildOutput,
    s2: Session,
    acts: Seq<Action>,
) -> bool {
    if out.exit is SpawnFailed {
        ended_with(s, s2, acts, Error::Process(ProcessError::Failed))
    } else {
        match out.stdout {
            Some(o) => {
                &&& same_core(s, s2)
                &&& s2.phase is AwaitCommand
                &&& acts.len() == 2
                &&& acts[0] matches Action::Send(
                    OutboundFrame::Echo(echo::Outbound::Result { output }),
                ) && output == o
                &&& acts[1] == Action::Recv
            },
            None => ended_with(s, s2, acts, Error::Process(ProcessError::Encoding)),
        }
    }
}

/// The open-repo handler, after the probe of `path + "/.git"`.
pub open spec fn probe_transition(
    s: Session,
    path: String,
    probe: PathProbe,
    s2: Session,
    acts: Seq<Action>,
) -> bool {
    match probe {
        PathProbe::Directory => {
            &&& s2.id == s.id
            &&& s2.repo_path matches Some(p) && p == path
            &&& s2.phase is AwaitCommand
            &&& acts.len() == 2
            &&& acts[0] == Action::Send(
                OutboundFrame::OpenRepo(open_repo::OutboundMessage::Success),
            )
            &&& acts[1] == Action::Recv
        },
        PathProbe::NotDirectory => reply_and_loop(
            s,
            s2,
            acts,
            OutboundFrame::OpenRepo(
                open_repo::OutboundMessage::Error(open_repo::ErrorReason::IsNotRepo),
            ),
        ),
        PathProbe::Missing => reply_and_loop(
            s,
            s2,
            acts,
            OutboundFrame::OpenRepo(
                open_repo::OutboundMessage::Error(open_repo::ErrorReason::InvalidPath),
            ),
        ),
    }
}

/// The log handler: empty stdout is the no-commits error; anything else
/// is parsed into entries.
pub open spec fn log_transition(
    s: Session,
    out: ChildOutput,
    s2: Session,
    acts: Seq<Action>,
) -> bool {
    if out.exit is SpawnFailed {
        ended_with(s, s2, acts, Error::Process(ProcessError::Failed))
    } else {
        match out.stdout {
            None => ended_with(s, s2, acts, Error::Process(ProcessError::Encoding)),
            Some(o) => if o@.len() == 0 {
                reply_and_loop(
                    s,
                    s2,
                    acts,
                    OutboundFrame::Log(
                        log_cmd::OutboundMessage::Error(log_cmd::ErrorReason::RepoHasNoCommits),
                    ),
                )
            } else {
                &&& same_core(s, s2)
                &&& s2.phase is AwaitCommand
                &&& acts.len() == 2
                &&& acts[0] matches Action::Send(
                    OutboundFrame::Log(log_cmd::OutboundMessage::Success { log }),
                ) && log.deep_view() == sp_log_entries(o@, 0).0
                &&& acts[1] == Action::Recv
            },
        }
    }
}

/// The status handler: stdout plus the sentinel NUL is parsed and
/// classified; a rejected text is a shared parsing error.
pub open spec fn status_transition(
    s: Session,
    out: ChildOutput,
    s2: Session,
    acts: Seq<Action>,
) -> bool {
    if out.exit is SpawnFailed {
        ended_with(s, s2, acts, Error::Process(ProcessError::Failed))
    } else {
        match out.stdout {
            None => ended_with(s, s2, acts, Error::Process(ProcessError::Encoding)),
            Some(o) => match sp_parse_git_status(o@.push('\u{0}')) {
                Some(buckets) => {
                    &&& same_core(s, s2)
                    &&& s2.phase is AwaitCommand
                    &&& acts.len() == 2
                    &&& acts[0] matches Action::Send(
                        OutboundFrame::Status(status_cmd::OutboundMessage::Success { status }),
                    ) && status@ == buckets
                    &&& acts[1] == Action::Recv
                },
                None => ended_with(s, s2, acts, Error::Process(ProcessError::Parsing)),
            },
        }
    }
}

/// The merge-base handler: exit code 0 means ancestor, 1 means not, and
/// anything else names a bad commit; no waitable code is a shared error.
pub open spec fn merge_base_transition(
    s: Session,
    out: ChildOutput,
    s2: Session,
    acts: Seq<Action>,
) -> bool {
    match out.exit {
        ChildExit::SpawnFailed => ended_with(s, s2, acts, Error::Process(ProcessError::Failed)),
        ChildExit::NoStatus => ended_with(s, s2, acts, Error::Process(ProcessError::Failed)),
        ChildExit::Code(code) => reply_and_loop(
            s,
            s2,
            acts,
            OutboundFrame::MergeBase(
                if code == 0 {
                    merge_base::OutboundMessage::Success { is_ancestor: true }
                } else if code == 1 {
                    merge_base::OutboundMessage::Success { is_ancestor: false }
                } else {
                    merge_base::OutboundMessage::Error(merge_base::ErrorReason::ShaIsNotACommit)
                },
            ),
        ),
    }
}

/// The bisect preflight: exit code 0 from `git bisect log` means a
/// bisection is already in progress; otherwise the bisection starts.
pub open spec fn bisect_check_transition(
    s: Session,
    bad: String,
    good: String,
    out: ChildOutput,
    s2: Session,
    acts: Seq<Action>,
) -> bool {
    match out.exit {
        ChildExit::SpawnFailed => ended_with(s, s2, acts, Error::Process(ProcessError::Failed)),
        ChildExit::NoStatus => ended_with(s, s2, acts, Error::Process(ProcessError::Failed)),
        ChildExit::Code(code) => if code == 0 {
            reply_and_loop(
                s,
                s2,
                acts,
                OutboundFrame::Bisect(
                    bisect::OutboundMessage::Error(bisect::BisectError::AlreadyBisecting),
                ),
            )
        } else {
            &&& same_core(s, s2)
            &&& s2.phase is BisectAwaitingOutput
            &&& acts.len() == 1
            &&& s.repo_path matches Some(repo) && is_run(
                acts[0],
                "git"@,
                seq!["--no-pager"@, "bisect"@, "start"@, bad@, good@, "--"@],
                Some(repo@),
            )
        },
    }
}

/// A bisect subcommand's output: parsed, then either sent to the client
/// (step, reached-merge-base, visualize) or, for a finish, answered by a
/// reset before the finish is reported.
pub open spec fn bisect_output_transition(
    s: Session,
    out: ChildOutput,
    s2: Session,
    acts: Seq<Action>,
) -> bool {
    if out.exit is SpawnFailed {
        ended_with(s, s2, acts, Error::Process(ProcessError::Failed))
    } else {
        match selected_output(out) {
            None => ended_with(s, s2, acts, Error::Process(ProcessError::Encoding)),
            Some(o) => match sp_parse_bisect(o@) {
                None => ended_with(s, s2, acts, Error::Process(ProcessError::Parsing)),
                Some(sb) => match sb {
                    SpecBisect::Step { revs, steps, sha } => {
                        &&& same_core(s, s2)
                        &&& s2.phase is BisectAwaitingClient
                        &&& acts.len() == 2
                        &&& acts[0] matches Action::Send(
                            OutboundFrame::Bisect(bisect::OutboundMessage::Step(st)),
                        ) && st.num_revisions_left as nat == revs && st.num_steps_left as nat
                            == steps && st.current_commit_sha@ == sha
                        &&& acts[1] == Action::RecvBisect
                    },
                    SpecBisect::ReachedMergeBase { sha } => {
                        &&& same_core(s, s2)
                        &&& s2.phase is BisectAwaitingClient
                        &&& acts.len() == 2
                        &&& acts[0] matches Action::Send(
                            OutboundFrame::Bisect(bisect::OutboundMessage::ReachedMergeBase(m)),
                        ) && m.merge_base_sha@ == sha
                        &&& acts[1] == Action::RecvBisect
                    },
                    SpecBisect::Visualize { shas } => {
                        &&& same_core(s, s2)
                        &&& s2.phase is BisectAwaitingClient
                        &&& acts.len() == 2
                        &&& acts[0] matches Action::Send(
                            OutboundFrame::Bisect(bisect::OutboundMessage::Visualize(v)),
                        ) && v.shas.deep_view() == shas
                        &&& acts[1] == Action::RecvBisect
                    },
                    SpecBisect::FoundRange { bad, good } => {
                        &&& same_core(s, s2)
                        &&& s2.phase matches Phase::BisectResetting { finish } && finish@ == sb
                        &&& acts.len() == 1
                        &&& s.repo_path matches Some(repo) && is_run(
                            acts[0],
                            "git"@,
                            seq!["--no-pager"@, "bisect"@, "reset"@],
                            Some(repo@),
                        )
                    },
                    SpecBisect::FoundSingle { bad } => {
                        &&& same_core(s, s2)
                        &&& s2.phase matches Phase::BisectResetting { finish } && finish@ == sb
                        &&& acts.len() == 1
                        &&& s.repo_path matches Some(repo) && is_run(
                            acts[0],
                            "git"@,
                            seq!["--no-pager"@, "bisect"@, "reset"@],
                            Some(repo@),
                        )
                    },
                },
            },
        }
    }
}

/// The client's bisect reply: each answer runs the matching subcommand.
pub open spec fn bisect_client_transition(
    s: Session,
    m: bisect::InboundMessage,
    s2: Session,
    acts: Seq<Action>,
) -> bool {
    &&& same_core(s, s2)
    &&& acts.len() == 1
    &&& s.repo_path matches Some(repo) && match m {
        bisect::InboundMessage::Bad => {
            &&& s2.phase is BisectAwaitingOutput
            &&& is_run(acts[0], "git"@, seq!["--no-pager"@, "bisect"@, "bad"@], Some(repo@))
        },
        bisect::InboundMessage::Good => {
            &&& s2.phase is BisectAwaitingOutput
            &&& is_run(acts[0], "git"@, seq!["--no-pager"@, "bisect"@, "good"@], Some(repo@))
        },
        bisect::InboundMessage::Visualize => {
            &&& s2.phase is BisectAwaitingOutput
            &&& is_run(
                acts[0],
                "git"@,
                seq!["--no-pager"@, "bisect"@, "visualize"@, visualize_format_arg()],
                Some(repo@),
            )
        },
        bisect::InboundMessage::Reset => {
            &&& s2.phase is BisectResettingAfterReset
            &&& is_run(acts[0], "git"@, seq!["--no-pager"@, "bisect"@, "reset"@], Some(repo@))
        },
    }
}

/// After the reset that follows a parsed finish: report the finish.
pub open spec fn bisect_reset_transition(
    s: Session,
    finish: BisectFinish,
    out: ChildOutput,
    s2: Session,
    acts: Seq<Action>,
) -> bool {
    if out.exit is SpawnFailed {
        ended_with(s, s2, acts, Error::Process(ProcessError::Failed))
    } else {
        match selected_output(out) {
            None => ended_with(s, s2, acts, Error::Process(ProcessError::Encoding)),
            Some(_) => {
                &&& same_core(s, s2)
                &&& s2.phase is AwaitCommand
                &&& acts.len() == 2
                &&& acts[0] matches Action::Send(
                    OutboundFrame::Bisect(bisect::OutboundMessage::Finish(f)),
                ) && f == finish
                &&& acts[1] == Action::Recv
            },
        }
    }
}

/// After the reset the client asked for: report success.
pub open spec fn bisect_client_reset_transition(
    s: Session,
    out: ChildOutput,
    s2: Session,
    acts: Seq<Action>,
) -> bool {
    if out.exit is SpawnFailed {
        ended_with(s, s2, acts, Error::Process(ProcessError::Failed))
    } else {
        match selected_output(out) {
            None => ended_with(s, s2, acts, Error::Process(ProcessError::Encoding)),
            Some(_) => reply_and_loop(
                s,
                s2,
                acts,
                OutboundFrame::Bisect(bisect::OutboundMessage::Success),
            ),
        }
    }
}

/// The whole transition relation of the state machine.
pub open spec fn step_transition(s: Session, e: Event, s2: Session, acts: Seq<Action>) -> bool {
    match s.phase {
        Phase::AwaitHello => e matches Event::Message(m) && handshake_transition(s, m, s2, acts),
        Phase::AwaitCommand => e matches Event::Message(m) && command_transition(s, m, s2, acts),
        Phase::EchoRunning => e matches Event::Child(out) && echo_transition(s, out, s2, acts),
        Phase::OpenRepoProbing { path } => e matches Event::Probe(p) && probe_transition(
            s,
            path,
            p,
            s2,
            acts,
        ),
        Phase::LogRunning => e matches Event::Child(out) && log_transition(s, out, s2, acts),
        Phase::StatusRunning => e matches Event::Child(out) && status_transition(s, out, s2, acts),
        Phase::MergeBaseRunning => e matches Event::Child(out) && merge_base_transition(
            s,
            out,
            s2,
            acts,
        ),
        Phase::BisectCheckingLog { bad, good } => e matches Event::Child(out)
            && bisect_check_transition(s, bad, good, out, s2, acts),
        Phase::BisectAwaitingOutput => e matches Event::Child(out) && bisect_output_transition(
            s,
            out,
            s2,
            acts,
        ),
        Phase::BisectAwaitingClient => e matches Event::BisectMessage(m)
            && bisect_client_transition(s, m, s2, acts),
        Phase::BisectResetting { finish } => e matches Event::Child(out)
            && bisect_reset_transition(s, finish, out, s2, acts),
        Phase::BisectResettingAfterReset => e matches Event::Child(out)
            && bisect_client_reset_transition(s, out, s2, acts),
        Phase::Ended => false,
    }
}

/// Send one frame, then read the next command.
fn reply(f: OutboundFrame) -> (acts: Vec<Action>)
    ensures
        acts@.len() == 2,
        acts@[0] == Action::Send(f),
        acts@[1] == Action::Recv,
{
    let mut acts: Vec<Action> = Vec::new();
    acts.push(Action::Send(f));
    acts.push(Action::Recv);
    acts
}

/// Close the connection on a shared error.
fn end_with(err: Error) -> (acts: Vec<Action>)
    ensures
        acts@.len() == 1,
        acts@[0] == Action::End(Some(err)),
{
    let mut acts: Vec<Action> = Vec::new();
    acts.push(Action::End(Some(err)));
    acts
}

/// Send one frame, then read the client's bisect reply.
fn reply_bisect(f: OutboundFrame) -> (acts: Vec<Action>)
    ensures
        acts@.len() == 2,
        acts@[0] == Action::Send(f),
        acts@[1] == Action::RecvBisect,
{
    let mut acts: Vec<Action> = Vec::new();
    acts.push(Action::Send(f));
    acts.push(Action::RecvBisect);
    acts
}

/// Run one child process.
fn run_only(inv: GitInvocation) -> (acts: Vec<Action>)
    ensures
        acts@.len() == 1,
        acts@[0] == Action::Run(inv),
{
    let mut acts: Vec<Action> = Vec::new();
    acts.push(Action::Run(inv));
    acts
}

/// A `git` invocation in the working copy with two arguments after
/// `--no-pager`.
fn git2(repo: &String, a: &str, b: &str) -> (inv: GitInvocation)
    ensures
        inv.program@ == "git"@,
        inv.args.deep_view() == seq!["--no-pager"@, a@, b@],
        inv.cwd matches Some(c) && c@ == repo@,
{
    let mut args: Vec<String> = Vec::new();
    args.push("--no-pager".to_owned());
    args.push(a.to_owned());
    args.push(b.to_owned());
    proof {
        assert(args.deep_view() =~= seq!["--no-pager"@, a@, b@]);
    }
    GitInvocation { program: "git".to_owned(), args, cwd: Some(repo.clone()) }
}

/// A `git` invocation in the working copy with three arguments after
/// `--no-pager`.
fn git3(repo: &String, a: &str, b: &str, c: &str) -> (inv: GitInvocation)
    ensures
        inv.program@ == "git"@,
        inv.args.deep_view() == seq!["--no-pager"@, a@, b@, c@],
        inv.cwd matches Some(w) && w@ == repo@,
{
    let mut args: Vec<String> = Vec::new();
    args.push("--no-pager".to_owned());
    args.push(a.to_owned());
    args.push(b.to_owned());
    args.push(c.to_owned());
    proof {
        assert(args.deep_view() =~= seq!["--no-pager"@, a@, b@, c@]);
    }
    GitInvocation { program: "git".to_owned(), args, cwd: Some(repo.clone()) }
}

/// The `git merge-base --is-ancestor <a> <d>` invocation.
fn git_is_ancestor(repo: &String, ancestor: String, descendant: String) -> (inv: GitInvocation)
    ensures
        inv.program@ == "git"@,
        inv.args.deep_view() == seq![
            "--no-pager"@,
            "merge-base"@,
            "--is-ancestor"@,
            ancestor@,
            descendant@,
        ],
        inv.cwd matches Some(w) && w@ == repo@,
{
    let ghost a_view = ancestor@;
    let ghost d_view = descendant@;
    let mut args: Vec<String> = Vec::new();
    args.push("--no-pager".to_owned());
    args.push("merge-base".to_owned());
    args.push("--is-ancestor".to_owned());
    args.push(ancestor);
    args.push(descendant);
    proof {
        assert(args.deep_view() =~= seq![
            "--no-pager"@,
            "merge-base"@,
            "--is-ancestor"@,
            a_view,
            d_view,
        ]);
    }
    GitInvocation { program: "git".to_owned(), args, cwd: Some(repo.clone()) }
}

/// The `git bisect start <bad> <good> --` invocation.
fn git_bisect_start(repo: &String, bad: String, good: String) -> (inv: GitInvocation)
    ensures
        inv.program@ == "git"@,
        inv.args.deep_view() == seq!["--no-pager"@, "bisect"@, "start"@, bad@, good@, "--"@],
        inv.cwd matches Some(w) && w@ == repo@,
{
    let ghost b_view = bad@;
    let ghost g_view = good@;
    let mut args: Vec<String> = Vec::new();
    args.push("--no-pager".to_owned());
    args.push("bisect".to_owned());
    args.push("start".to_owned());
    args.push(bad);
    args.push(good);
    args.push("--".to_owned());
    proof {
        assert(args.deep_view() =~= seq![
            "--no-pager"@,
            "bisect"@,
            "start"@,
            b_view,
            g_view,
            "--"@,
        ]);
    }
    GitInvocation { program: "git".to_owned(), args, cwd: Some(repo.clone()) }
}

/// An exact copy of a parsed finish.
fn clone_finish(f: &BisectFinish) -> (r: BisectFinish)
    ensures
        r == *f,
{
    match f {
        BisectFinish::FoundRange(fr) => BisectFinish::FoundRange(
            BisectFoundRange {
                bad_commit_sha: fr.bad_commit_sha.clone(),
                good_commit_sha: fr.good_commit_sha.clone(),
            },
        ),
        BisectFinish::FoundSingle(fs) => BisectFinish::FoundSingle(
            BisectFoundSingle { bad_commit_sha: fs.bad_commit_sha.clone() },
        ),
    }
}

/// Relies on `uuid::Uuid::new_v4` and `uuid::Uuid::as_u128`: a fresh
/// random id whose version nibble is 4 and whose variant bits mark it
/// as an RFC 4122 value; nothing else is assumed of it.
#[verifier::external_body]
fn fresh_session_id() -> (r: u128)
    ensures
        (r >> 76) & 0xf == 4,
        (r >> 62) & 0x3 == 2,
{
    uuid::Uuid::new_v4().as_u128()
}

impl Session {
    /// A new session for an accepted connection: the first frame sent is
    /// `Hello` with the protocol version, and the machine then awaits
    /// the client's `Hello`.
    pub fn start(id: u128) -> (r: (Session, Vec<Action>))
        ensures
            r.0.id == id,
            r.0.repo_path is None,
            r.0.phase is AwaitHello,
            r.0.wf(),
            r.1@.len() == 2,
            r.1@[0] == Action::Send(
                OutboundFrame::Protocol(
                    message::Outbound::Hello { version: protocol_version() },
                ),
            ),
            r.1@[1] == Action::Recv,
    {
        let version = Version { major: 0, minor: 1, patch: 0 };
        let mut acts: Vec<Action> = Vec::new();
        acts.push(Action::Send(OutboundFrame::Protocol(message::Outbound::Hello { version })));
        acts.push(Action::Recv);
        (Session { id, repo_path: None, phase: Phase::AwaitHello }, acts)
    }

    /// A new session under a fresh random id.
    pub fn open() -> (r: (Session, Vec<Action>))
        ensures
            r.0.repo_path is None,
            r.0.phase is AwaitHello,
            r.0.wf(),
            r.1@.len() == 2,
            r.1@[0] == Action::Send(
                OutboundFrame::Protocol(
                    message::Outbound::Hello { version: protocol_version() },
                ),
            ),
            r.1@[1] == Action::Recv,
    {
        Session::start(fresh_session_id())
    }

    /// Advance the machine by one event; the returned actions are
    /// performed in order by the embedding binary.
    pub fn step(&mut self, event: Event) -> (acts: Vec<Action>)
        requires
            old(self).wf(),
            event_fits(old(self).phase, event),
        ensures
            final(self).wf(),
            step_transition(*old(self), event, *final(self), acts@),
    {
        match event {
            Event::Message(m) => {
                if matches!(self.phase, Phase::AwaitHello) {
                    self.step_handshake(m)
                } else {
                    self.step_command(m)
                }
            },
            Event::BisectMessage(m) => self.step_bisect_client(m),
            Event::Probe(p) => self.step_probe(p),
            Event::Child(out) => {
                if matches!(self.phase, Phase::EchoRunning) {
                    self.step_echo(out)
                } else if matches!(self.phase, Phase::LogRunning) {
                    self.step_log(out)
                } else if matches!(self.phase, Phase::StatusRunning) {
                    self.step_status(out)
                } else if matches!(self.phase, Phase::MergeBaseRunning) {
                    self.step_merge_base(out)
                } else if matches!(self.phase, Phase::BisectCheckingLog { .. }) {
                    self.step_bisect_check(out)
                } else if matches!(self.phase, Phase::BisectAwaitingOutput) {
                    self.step_bisect_output(out)
                } else if matches!(self.phase, Phase::BisectResetting { .. }) {
                    self.step_bisect_reset(out)
                } else {
                    self.step_bisect_client_reset(out)
                }
            },
        }
    }

    /// The handshake: only the client's `Hello` is accepted.
    fn step_handshake(&mut self, m: message::Inbound) -> (acts: Vec<Action>)
        requires
            old(self).wf(),
            old(self).phase is AwaitHello,
        ensures
            final(self).wf(),
            step_transition(*old(self), Event::Message(m), *final(self), acts@),
    {
        match m {
            message::Inbound::Hello => {
                self.phase = Phase::AwaitCommand;
                reply(OutboundFrame::Protocol(message::Outbound::GladToMeetYou))
            },
            _ => {
                self.phase = Phase::Ended;
                end_with(Error::InboundMessage(InboundMessageError::Unexpected))
            },
        }
    }

    /// The command loop: route one inbound frame.
    fn step_command(&mut self, m: message::Inbound) -> (acts: Vec<Action>)
        requires
            old(self).wf(),
            old(self).phase is AwaitCommand,
        ensures
            final(self).wf(),
            step_transition(*old(self), Event::Message(m), *final(self), acts@),
    {
        match m {
            message::Inbound::Goodbye => {
                self.phase = Phase::Ended;
                let mut acts: Vec<Action> = Vec::new();
                acts.push(
                    Action::Send(
                        OutboundFrame::Protocol(message::Outbound::Goodbye { error_code: None }),
                    ),
                );
                acts.push(Action::End(None));
                acts
            },
            message::Inbound::Hello => {
                self.phase = Phase::Ended;
                end_with(Error::InboundMessage(InboundMessageError::Unexpected))
            },
            message::Inbound::GitCommand(c) => self.step_dispatch(c),
        }
    }

    /// Open one command's sub-conversation.
    fn step_dispatch(&mut self, c: git_command::Inbound) -> (acts: Vec<Action>)
        requires
            old(self).wf(),
            old(self).phase is AwaitCommand,
        ensures
            final(self).wf(),
            dispatch_transition(*old(self), c, *final(self), acts@),
    {
        match c {
            git_command::Inbound::Echo { input } => {
                let ghost in_view = input@;
                let mut args: Vec<String> = Vec::new();
                args.push(input);
                proof {
                    assert(args.deep_view() =~= seq![in_view]);
                }
                self.phase = Phase::EchoRunning;
                run_only(GitInvocation { program: "echo".to_owned(), args, cwd: None })
            },
            git_command::Inbound::OpenRepo { path } => {
                if !path_is_absolute(path.as_str()) {
                    reply(
                        OutboundFrame::OpenRepo(
                            open_repo::OutboundMessage::Error(
                                open_repo::ErrorReason::MustBeAbsolutePath,
                            ),
                        ),
                    )
                } else {
                    let probe_path = path.clone().concat("/.git");
                    let mut acts: Vec<Action> = Vec::new();
                    acts.push(Action::Probe(probe_path));
                    self.phase = Phase::OpenRepoProbing { path };
                    acts
                }
            },
            git_command::Inbound::Log => {
                match &self.repo_path {
                    None => reply(
                        OutboundFrame::Log(
                            log_cmd::OutboundMessage::Error(log_cmd::ErrorReason::RepoPathNotSet),
                        ),
                    ),
                    Some(repo) => {
                        let acts = run_only(
                            git2(
                                repo,
                                "log",
                                "--format=sha %H%nparents %P%nauthor %an%nemail %ae%ndate %ai%nsummary %s%ndescription %b%x00%x00",
                            ),
                        );
                        self.phase = Phase::LogRunning;
                        acts
                    },
                }
            },
            git_command::Inbound::Status => {
                match &self.repo_path {
                    None => reply(
                        OutboundFrame::Status(
                            status_cmd::OutboundMessage::Error(
                                status_cmd::ErrorReason::RepoPathNotSet,
                            ),
                        ),
                    ),
                    Some(repo) => {
                        let acts = run_only(
                            git3(repo, "status", "--porcelain=v2", "--untracked-files"),
                        );
                        self.phase = Phase::StatusRunning;
                        acts
                    },
                }
            },
            git_command::Inbound::MergeBase(mb) => {
                let merge_base::Inbound::IsAncestor { ancestor_sha, descendant_sha } = mb;
                if !verify_string_is_sha(ancestor_sha.as_str()) {
                    reply(
                        OutboundFrame::MergeBase(
                            merge_base::OutboundMessage::Error(
                                merge_base::ErrorReason::AncestorMustBeASha,
                            ),
                        ),
                    )
                } else if !verify_string_is_sha(descendant_sha.as_str()) {
                    reply(
                        OutboundFrame::MergeBase(
                            merge_base::OutboundMessage::Error(
                                merge_base::ErrorReason::DescendantMustBeASha,
                            ),
                        ),
                    )
                } else {
                    match &self.repo_path {
                        None => reply(
                            OutboundFrame::MergeBase(
                                merge_base::OutboundMessage::Error(
                                    merge_base::ErrorReason::RepoPathNotSet,
                                ),
                            ),
                        ),
                        Some(repo) => {
                            let acts = run_only(
                                git_is_ancestor(repo, ancestor_sha, descendant_sha),
                            );
                            self.phase = Phase::MergeBaseRunning;
                            acts
                        },
                    }
                }
            },
            git_command::Inbound::Bisect { bad, good } => {
                match &self.repo_path {
                    None => reply(
                        OutboundFrame::Bisect(
                            bisect::OutboundMessage::Error(bisect::BisectError::RepoPathNotSet),
                        ),
                    ),
                    Some(repo) => {
                        let acts = run_only(git2(repo, "bisect", "log"));
                        self.phase = Phase::BisectCheckingLog { bad, good };
                        acts
                    },
                }
            },
        }
    }

    /// The echo handler's reply.
    fn step_echo(&mut self, out: ChildOutput) -> (acts: Vec<Action>)
        requires
            old(self).wf(),
            old(self).phase is EchoRunning,
        ensures
            final(self).wf(),
            step_transition(*old(self), Event::Child(out), *final(self), acts@),
    {
        let ChildOutput { exit, stdout, stderr: _ } = out;
        if matches!(exit, ChildExit::SpawnFailed) {
            self.phase = Phase::Ended;
            end_with(Error::Process(ProcessError::Failed))
        } else {
            match stdout {
                Some(o) => {
                    self.phase = Phase::AwaitCommand;
                    reply(OutboundFrame::Echo(echo::Outbound::Result { output: o }))
                },
                None => {
                    self.phase = Phase::Ended;
                    end_with(Error::Process(ProcessError::Encoding))
                },
            }
        }
    }

    /// The open-repo handler, after the probe.
    fn step_probe(&mut self, p: PathProbe) -> (acts: Vec<Action>)
        requires
            old(self).wf(),
            old(self).phase matches Phase::OpenRepoProbing { .. },
        ensures
            final(self).wf(),
            step_transition(*old(self), Event::Probe(p), *final(self), acts@),
    {
        let (next, new_repo, acts): (Phase, Option<String>, Vec<Action>) = match &self.phase {
            Phase::OpenRepoProbing { path } => {
                match p {
                    PathProbe::Directory => (
                        Phase::AwaitCommand,
                        Some(path.clone()),
                        reply(OutboundFrame::OpenRepo(open_repo::OutboundMessage::Success)),
                    ),
                    PathProbe::NotDirectory => (
                        Phase::AwaitCommand,
                        None,
                        reply(
                            OutboundFrame::OpenRepo(
                                open_repo::OutboundMessage::Error(
                                    open_repo::ErrorReason::IsNotRepo,
                                ),
                            ),
                        ),
                    ),
                    PathProbe::Missing => (
                        Phase::AwaitCommand,
                        None,
                        reply(
                            OutboundFrame::OpenRepo(
                                open_repo::OutboundMessage::Error(
                                    open_repo::ErrorReason::InvalidPath,
                                ),
                            ),
                        ),
                    ),
                }
            },
            _ => {
                proof {
                    assert(false);
                }
                (Phase::Ended, None, Vec::new())
            },
        };
        if let Some(r) = new_repo {
            self.repo_path = Some(r);
        }
        self.phase = next;
        acts
    }

    /// The log handler's reply.
    fn step_log(&mut self, out: ChildOutput) -> (acts: Vec<Action>)
        requires
            old(self).wf(),
            old(self).phase is LogRunning,
        ensures
            final(self).wf(),
            step_transition(*old(self), Event::Child(out), *final(self), acts@),
    {
        let ChildOutput { exit, stdout, stderr: _ } = out;
        if matches!(exit, ChildExit::SpawnFailed) {
            self.phase = Phase::Ended;
            return end_with(Error::Process(ProcessError::Failed));
        }
        match stdout {
            None => {
                self.phase = Phase::Ended;
                end_with(Error::Process(ProcessError::Encoding))
            },
            Some(o) => {
                if o.as_str().unicode_len() == 0 {
                    self.phase = Phase::AwaitCommand;
                    reply(
                        OutboundFrame::Log(
                            log_cmd::OutboundMessage::Error(
                                log_cmd::ErrorReason::RepoHasNoCommits,
                            ),
                        ),
                    )
                } else {
                    match parse_log(o.as_str()) {
                        Ok(log) => {
                            self.phase = Phase::AwaitCommand;
                            reply(OutboundFrame::Log(log_cmd::OutboundMessage::Success { log }))
                        },
                        Err(_) => {
                            proof {
                                assert(false);
                            }
                            Vec::new()
                        },
                    }
                }
            },
        }
    }

    /// The status handler's reply.
    fn step_status(&mut self, out: ChildOutput) -> (acts: Vec<Action>)
        requires
            old(self).wf(),
            old(self).phase is StatusRunning,
        ensures
            final(self).wf(),
            step_transition(*old(self), Event::Child(out), *final(self), acts@),
    {
        let ChildOutput { exit, stdout, stderr: _ } = out;
        if matches!(exit, ChildExit::SpawnFailed) {
            self.phase = Phase::Ended;
            return end_with(Error::Process(ProcessError::Failed));
        }
        match stdout {
            None => {
                self.phase = Phase::Ended;
                end_with(Error::Process(ProcessError::Encoding))
            },
            Some(o) => {
                let ghost o_view = o@;
                let mut text = o;
                text.append("\u{0}");
                proof {
                    reveal_strlit("\u{0}");
                    assert("\u{0}"@ =~= seq!['\u{0}']);
                    assert(text@ =~= o_view.push('\u{0}'));
                }
                match parse_git_status(text.as_str()) {
                    Ok(status) => {
                        self.phase = Phase::AwaitCommand;
                        reply(
                            OutboundFrame::Status(status_cmd::OutboundMessage::Success { status }),
                        )
                    },
                    Err(_) => {
                        self.phase = Phase::Ended;
                        end_with(Error::Process(ProcessError::Parsing))
                    },
                }
            },
        }
    }

    /// The merge-base handler's reply, from the child's exit code.
    fn step_merge_base(&mut self, out: ChildOutput) -> (acts: Vec<Action>)
        requires
            old(self).wf(),
            old(self).phase is MergeBaseRunning,
        ensures
            final(self).wf(),
            step_transition(*old(self), Event::Child(out), *final(self), acts@),
    {
        match out.exit {
            ChildExit::SpawnFailed => {
                self.phase = Phase::Ended;
                end_with(Error::Process(ProcessError::Failed))
            },
            ChildExit::NoStatus => {
                self.phase = Phase::Ended;
                end_with(Error::Process(ProcessError::Failed))
            },
            ChildExit::Code(code) => {
                let message = if code == 0 {
                    merge_base::OutboundMessage::Success { is_ancestor: true }
                } else if code == 1 {
                    merge_base::OutboundMessage::Success { is_ancestor: false }
                } else {
                    merge_base::OutboundMessage::Error(merge_base::ErrorReason::ShaIsNotACommit)
                };
                self.phase = Phase::AwaitCommand;
                reply(OutboundFrame::MergeBase(message))
            },
        }
    }

    /// The bisect preflight's outcome.
    fn step_bisect_check(&mut self, out: ChildOutput) -> (acts: Vec<Action>)
        requires
            old(self).wf(),
            old(self).phase matches Phase::BisectCheckingLog { .. },
        ensures
            final(self).wf(),
            step_transition(*old(self), Event::Child(out), *final(self), acts@),
    {
        let (next, acts): (Phase, Vec<Action>) = match (&self.phase, &self.repo_path) {
            (Phase::BisectCheckingLog { bad, good }, repo_opt) => {
                match out.exit {
                    ChildExit::SpawnFailed => (
                        Phase::Ended,
                        end_with(Error::Process(ProcessError::Failed)),
                    ),
                    ChildExit::NoStatus => (
                        Phase::Ended,
                        end_with(Error::Process(ProcessError::Failed)),
                    ),
                    ChildExit::Code(code) => {
                        if code == 0 {
                            (
                                Phase::AwaitCommand,
                                reply(
                                    OutboundFrame::Bisect(
                                        bisect::OutboundMessage::Error(
                                            bisect::BisectError::AlreadyBisecting,
                                        ),
                                    ),
                                ),
                            )
                        } else {
                            match repo_opt {
                                Some(repo) => (
                                    Phase::BisectAwaitingOutput,
                                    run_only(git_bisect_start(repo, bad.clone(), good.clone())),
                                ),
                                None => {
                                    proof {
                                        assert(false);
                                    }
                                    (Phase::Ended, Vec::new())
                                },
                            }
                        }
                    },
                }
            },
            _ => {
                proof {
                    assert(false);
                }
                (Phase::Ended, Vec::new())
            },
        };
        self.phase = next;
        acts
    }

    /// A bisect subcommand's output: parse it and either speak to the
    /// client or reset.
    fn step_bisect_output(&mut self, out: ChildOutput) -> (acts: Vec<Action>)
        requires
            old(self).wf(),
            old(self).phase is BisectAwaitingOutput,
        ensures
            final(self).wf(),
            step_transition(*old(self), Event::Child(out), *final(self), acts@),
    {
        let ghost out_ghost = out;
        let ChildOutput { exit, stdout, stderr } = out;
        if matches!(exit, ChildExit::SpawnFailed) {
            self.phase = Phase::Ended;
            return end_with(Error::Process(ProcessError::Failed));
        }
        let chosen: Option<String> = match stdout {
            Some(o) => if o.as_str().unicode_len() == 0 {
                stderr
            } else {
                Some(o)
            },
            None => None,
        };
        proof {
            assert(chosen == selected_output(out_ghost));
        }
        match chosen {
            None => {
                self.phase = Phase::Ended;
                end_with(Error::Process(ProcessError::Encoding))
            },
            Some(text) => {
                match parse_bisect(text.as_str()) {
                    Err(_) => {
                        self.phase = Phase::Ended;
                        end_with(Error::Process(ProcessError::Parsing))
                    },
                    Ok(output) => match output {
                        BisectOutput::Step(st) => {
                            self.phase = Phase::BisectAwaitingClient;
                            reply_bisect(
                                OutboundFrame::Bisect(bisect::OutboundMessage::Step(st)),
                            )
                        },
                        BisectOutput::ReachedMergeBase(m) => {
                            self.phase = Phase::BisectAwaitingClient;
                            reply_bisect(
                                OutboundFrame::Bisect(
                                    bisect::OutboundMessage::ReachedMergeBase(m),
                                ),
                            )
                        },
                        BisectOutput::Visualize(v) => {
                            self.phase = Phase::BisectAwaitingClient;
                            reply_bisect(
                                OutboundFrame::Bisect(bisect::OutboundMessage::Visualize(v)),
                            )
                        },
                        BisectOutput::Finish(finish) => {
                            match &self.repo_path {
                                Some(repo) => {
                                    let acts = run_only(git2(repo, "bisect", "reset"));
                                    self.phase = Phase::BisectResetting { finish };
                                    acts
                                },
                                None => {
                                    proof {
                                        assert(false);
                                    }
                                    Vec::new()
                                },
                            }
                        },
                    },
                }
            },
        }
    }

    /// The client's bisect reply.
    fn step_bisect_client(&mut self, m: bisect::InboundMessage) -> (acts: Vec<Action>)
        requires
            old(self).wf(),
            event_fits(old(self).phase, Event::BisectMessage(m)),
        ensures
            final(self).wf(),
            step_transition(*old(self), Event::BisectMessage(m), *final(self), acts@),
    {
        match &self.repo_path {
            Some(repo) => {
                let (next, acts): (Phase, Vec<Action>) = match m {
                    bisect::InboundMessage::Bad => (
                        Phase::BisectAwaitingOutput,
                        run_only(git2(repo, "bisect", "bad")),
                    ),
                    bisect::InboundMessage::Good => (
                        Phase::BisectAwaitingOutput,
                        run_only(git2(repo, "bisect", "good")),
                    ),
                    bisect::InboundMessage::Visualize => (
                        Phase::BisectAwaitingOutput,
                        run_only(git3(repo, "bisect", "visualize", "--format=sha %H")),
                    ),
                    bisect::InboundMessage::Reset => (
                        Phase::BisectResettingAfterReset,
                        run_only(git2(repo, "bisect", "reset")),
                    ),
                };
                self.phase = next;
                acts
            },
            None => {
                proof {
                    assert(false);
                }
                Vec::new()
            },
        }
    }

    /// The reset after a parsed finish: report the finish.
    fn step_bisect_reset(&mut self, out: ChildOutput) -> (acts: Vec<Action>)
        requires
            old(self).wf(),
            old(self).phase matches Phase::BisectResetting { .. },
        ensures
            final(self).wf(),
            step_transition(*old(self), Event::Child(out), *final(self), acts@),
    {
        let ghost out_ghost = out;
        let ChildOutput { exit, stdout, stderr } = out;
        let (next, acts): (Phase, Vec<Action>) = match &self.phase {
            Phase::BisectResetting { finish } => {
                if matches!(exit, ChildExit::SpawnFailed) {
                    (Phase::Ended, end_with(Error::Process(ProcessError::Failed)))
                } else {
                    let chosen: Option<String> = match stdout {
                        Some(o) => if o.as_str().unicode_len() == 0 {
                            stderr
                        } else {
                            Some(o)
                        },
                        None => None,
                    };
                    proof {
                        assert(chosen == selected_output(out_ghost));
                    }
                    match chosen {
                        None => (Phase::Ended, end_with(Error::Process(ProcessError::Encoding))),
                        Some(_) => (
                            Phase::AwaitCommand,
                            reply(
                                OutboundFrame::Bisect(
                                    bisect::OutboundMessage::Finish(clone_finish(finish)),
                                ),
                            ),
                        ),
                    }
                }
            },
            _ => {
                proof {
                    assert(false);
                }
                (Phase::Ended, Vec::new())
            },
        };
        self.phase = next;
        acts
    }

    /// The reset the client asked for: report success.
    fn step_bisect_client_reset(&mut self, out: ChildOutput) -> (acts: Vec<Action>)
        requires
            old(self).wf(),
            old(self).phase is BisectResettingAfterReset,
        ensures
            final(self).wf(),
            step_transition(*old(self), Event::Child(out), *final(self), acts@),
    {
        let ghost out_ghost = out;
        let ChildOutput { exit, stdout, stderr } = out;
        if matches!(exit, ChildExit::SpawnFailed) {
            self.phase = Phase::Ended;
            return end_with(Error::Process(ProcessError::Failed));
        }
        let chosen: Option<String> = match stdout {
            Some(o) => if o.as_str().unicode_len() == 0 {
                stderr
            } else {
                Some(o)
            },
            None => None,
        };
        proof {
            assert(chosen == selected_output(out_ghost));
        }
        match chosen {
            None => {
                self.phase = Phase::Ended;
                end_with(Error::Process(ProcessError::Encoding))
            },
            Some(_) => {
                self.phase = Phase::AwaitCommand;
                reply(OutboundFrame::Bisect(bisect::OutboundMessage::Success))
            },
        }
    }
}

/// How many of at most two actions are sends.
proof fn lemma_send_count_small(acts: Seq<Action>)
    requires
        acts.len() <= 2,
    ensures
        acts.len() == 0 ==> send_count(acts) == 0,
        acts.len() == 1 ==> send_count(acts) == (if acts[0] is Send {
            1nat
        } else {
            0nat
        }),
        acts.len() == 2 ==> send_count(acts) == (if acts[0] is Send {
            1nat
        } else {
            0nat
        }) + (if acts[1] is Send {
            1nat
        } else {
            0nat
        }),
{
    if acts.len() == 1 {
        assert(acts.drop_last().len() == 0);
        assert(send_count(acts.drop_last()) == 0);
        assert(acts.last() == acts[0]);
    }
    if acts.len() == 2 {
        let d = acts.drop_last();
        assert(d.len() == 1);
        assert(d.drop_last().len() == 0);
        assert(send_count(d.drop_last()) == 0);
        assert(d.last() == acts[0]);
        assert(send_count(d) == if acts[0] is Send {
            1nat
        } else {
            0nat
        });
        assert(acts.last() == acts[1]);
    }
}

/// Until the client says `Hello`, any other inbound frame ends the
/// session without a further outbound frame.
pub proof fn lemma_silent_before_hello(
    s: Session,
    m: message::Inbound,
    s2: Session,
    acts: Seq<Action>,
)
    requires
        s.phase is AwaitHello,
        !(m is Hello),
        step_transition(s, Event::Message(m), s2, acts),
    ensures
        s2.phase is Ended,
        send_count(acts) == 0,
        acts.len() == 1,
        acts[0] == Action::End(Some(Error::InboundMessage(InboundMessageError::Unexpected))),
{
    lemma_send_count_small(acts);
}

/// Dispatching a command either enters that command's sub-conversation
/// without sending anything yet, or answers it at once with exactly one
/// frame and returns to the command loop.
pub proof fn lemma_command_opens_one_group(
    s: Session,
    c: git_command::Inbound,
    s2: Session,
    acts: Seq<Action>,
)
    requires
        s.wf(),
        s.phase is AwaitCommand,
        step_transition(s, Event::Message(message::Inbound::GitCommand(c)), s2, acts),
    ensures
        (is_handler_phase(s2.phase) && send_count(acts) == 0 && acts.len() >= 1 && (acts.last()
            is Run || acts.last() is Probe)) || (s2.phase is AwaitCommand && send_count(acts) == 1
            && acts.last() == Action::Recv),
{
    lemma_send_count_small(acts);
}

/// Inside one command's sub-conversation, every transition either stays
/// in the sub-conversation awaiting more input, or returns to the
/// command loop having sent exactly one closing frame, or ends the
/// session on a shared error without sending anything. Together with
/// `lemma_command_opens_one_group`, each inbound command produces
/// exactly one group of outbound frames before the loop resumes.
pub proof fn lemma_handler_returns_to_loop(
    s: Session,
    e: Event,
    s2: Session,
    acts: Seq<Action>,
)
    requires
        s.wf(),
        is_handler_phase(s.phase),
        step_transition(s, e, s2, acts),
    ensures
        (s2.phase is AwaitCommand && send_count(acts) == 1 && acts.last() == Action::Recv) || (
        s2.phase is Ended && send_count(acts) == 0) || (is_handler_phase(s2.phase) && acts.len()
            >= 1 && (acts.last() is Run || acts.last() is RecvBisect)),
{
    lemma_send_count_small(acts);
}

/// A handler's own `Error{reason}` reply leaves the session in the
/// command loop, ready for the next command.
pub proof fn lemma_error_reply_keeps_session(
    s: Session,
    e: Event,
    s2: Session,
    acts: Seq<Action>,
)
    requires
        s.wf(),
        step_transition(s, e, s2, acts),
        sends_error(acts),
    ensures
        s2.phase is AwaitCommand,
        acts.last() == Action::Recv,
{
    let i = choose|i: int|
        0 <= i < acts.len() && ((#[trigger] acts[i]) matches Action::Send(f) && is_error_frame(
            f,
        ));
}

} // verus!
