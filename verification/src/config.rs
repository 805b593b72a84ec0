//! Process-wide configuration, written once at startup.

use vstd::prelude::*;

verus! {

/// The server's configuration: whether debug logging is on, the optional
/// directory holding the `git` binary, the optional `GIT_EXEC_PATH`
/// value, and the listen port.
#[derive(Debug, Clone, PartialEq)]
pub struct Config {
    pub debug: bool,
    pub git_path: Option<String>,
    pub exec_path: Option<String>,
    pub port: u32,
}

impl Default for Config {
    /// The configuration before any command-line flag is applied.
    fn default() -> (r: Config)
        ensures
            !r.debug,
            r.git_path is None,
            r.exec_path is None,
            r.port == 5134,
    {
        Config { debug: false, git_path: None, exec_path: None, port: 5134 }
    }
}

/// The smallest and largest ports the command line accepts.
pub open spec fn port_in_range(port: u32) -> bool {
    1024 <= port <= 49151
}

/// Whether `port` may be given on the command line.
pub fn validate_port(port: u32) -> (r: bool)
    ensures
        r == port_in_range(port),
{
    1024 <= port && port <= 49151
}

} // verus!
