//! The command-line surface of the daemon, as plain data.  The front end
//! that parses arguments into these values lives with the binary.

use vstd::prelude::*;

verus! {

#[derive(Debug, PartialEq)]
pub struct Cli {
    /// Path to config file
    pub config: String,
    /// Command to perform
    pub command: Command,
}

#[derive(Debug, PartialEq)]
pub enum Command {
    /// Create an initial config
    Init(InitCmd),
    /// Sync metadata with peer
    Sync(SyncCmd),
    /// Request patch from peer
    Patch(PatchCmd),
    /// Show peer id
    /// If no peer nickname provided, show own peer id
    Id(IdCmd),
    /// Run the daemon
    Daemon(DaemonCmd),
}

#[derive(Debug, PartialEq)]
pub struct InitCmd {
    pub repo: String,
    pub db_path: String,
    pub swarm_listen: String,
    pub api_listen: String,
}

#[derive(Debug, PartialEq)]
pub struct SyncCmd {}

#[derive(Debug, PartialEq)]
pub struct PatchCmd {}

#[derive(Debug, PartialEq)]
pub struct IdCmd {
    pub nickname: Option<String>,
}

#[derive(Debug, PartialEq)]
pub struct DaemonCmd {
    pub foreground: bool,
}

} // verus!
