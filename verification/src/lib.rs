//! A verified core for a TCP service that exposes the local `git`
//! executable as a structured, message-oriented protocol.
//!
//! The crate holds the parts of the server that decide and compute:
//! the length-prefixed framing arithmetic, the typed protocol messages,
//! the parsers for `git`'s porcelain output (bisect, log, status v2),
//! the status classifier, and the per-connection protocol state machine.
//! The surrounding I/O (sockets, child processes, JSON encoding) is left
//! to the embedding binary, which drives the state machine with events
//! and performs the actions it returns.

pub mod bisect;
pub mod bisect_parse;
pub mod config;
pub mod echo;
pub mod error;
pub mod git;
pub mod git_command;
pub mod log_cmd;
pub mod log_parse;
pub mod merge_base;
pub mod message;
pub mod open_repo;
pub mod parse_util;
pub mod session;
pub mod status_cmd;
pub mod status_entry;
pub mod transport;
