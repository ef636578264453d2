//! The commands of the tool, as plain values (the argument parser fills them).
use vstd::prelude::*;

verus! {

/// The command line: one subcommand.
#[derive(Debug)]
pub struct Cli {
    pub command: Commands,
}

/// The subcommands.
#[allow(inconsistent_fields)]
#[derive(Debug)]
pub enum Commands {
    /// Print the hook script that records commands for a shell.
    Init { shell: String },
    /// Import a shell's history file (its default one unless `file`, the bytes of a path, is
    /// given).
    Import { shell: String, file: Option<Vec<u8>>, allow_sensitive: bool },
    /// Record one command.
    Record {
        command: String,
        cwd: Option<String>,
        exit_code: i32,
        duration_ms: u64,
        allow_sensitive: bool,
    },
    /// Search the history by fuzzy keyword.
    Search { keyword: String, limit: Option<usize>, cwd: Option<String>, failed_only: bool },
    /// Search interactively.
    Tui {
        keyword: Option<String>,
        cwd: Option<String>,
        limit: Option<usize>,
        failed_only: bool,
        forward: bool,
    },
}

} // verus!
