//! What each command does, as decisions on plain values: which checks run, which entry gets
//! recorded, which search runs. Reading the terminal, the file system and the database, and
//! printing, are left to the caller.
use vstd::prelude::*;
use crate::cli::{Cli, Commands};
use crate::importer::{shell_kind, ShellKind};
use crate::model::HistoryEntry;
use crate::privacy::{is_sensitive_command, sensitive};
use crate::text::{opt_view, to_string};
use crate::time::{now, Timestamp};
use crate::tui::{cwd_filter, trimmed_filter, TuiRequest};
use crate::validators::{command_checked, validate_command, ValidationError};

verus! {

/// The working directory to record: the one given unless it is empty, else the current
/// directory, else `"unknown"`.
pub open spec fn cwd_to_record(cwd: Option<Seq<char>>, current_dir: Option<Seq<char>>) -> Seq<char> {
    match cwd {
        Some(c) if c.len() > 0 => c,
        _ => match current_dir {
            Some(d) => d,
            None => "unknown"@,
        },
    }
}

/// The working directory to record: `cwd` unless it is missing or empty, else `current_dir`
/// (the process's current directory, where it could be read), else `"unknown"`.
pub fn get_cwd(cwd: Option<String>, current_dir: Option<String>) -> (res: String)
    ensures
        res@ == cwd_to_record(opt_view(cwd), opt_view(current_dir)),
{
    match cwd {
        Some(c) => {
            if c.as_str().is_empty() {
                match current_dir {
                    Some(d) => d,
                    None => to_string("unknown"),
                }
            } else {
                c
            }
        },
        None => match current_dir {
            Some(d) => d,
            None => to_string("unknown"),
        },
    }
}

/// The entry that recording a command stores, or `None` when it is skipped: a sensitive
/// command is skipped unless `allow_sensitive`. The entry has no id, the command as given, the
/// working directory of `get_cwd`, the exit code and duration given, and the current time.
pub fn handle_record(
    command: String,
    cwd: Option<String>,
    exit_code: i32,
    duration_ms: u64,
    allow_sensitive: bool,
    current_dir: Option<String>,
) -> (res: Option<HistoryEntry>)
    ensures
        !allow_sensitive && sensitive(command@) ==> res is None,
        allow_sensitive || !sensitive(command@) ==> (res matches Some(e) && {
            &&& e.id is None
            &&& e.command@ == command@
            &&& e.cwd@ == cwd_to_record(opt_view(cwd), opt_view(current_dir))
            &&& e.exit_code == exit_code
            &&& e.duration_ms == duration_ms
            &&& e.wf()
        }),
{
    if !allow_sensitive && is_sensitive_command(command.as_str()) {
        return None;
    }
    record_entry_at(command, cwd, exit_code, duration_ms, allow_sensitive, current_dir, now())
}

/// The entry that recording a command at the time `time` stores, or `None` when it is skipped:
/// as `handle_record`, stamped with `time`, whatever time that is.
pub fn record_entry_at(
    command: String,
    cwd: Option<String>,
    exit_code: i32,
    duration_ms: u64,
    allow_sensitive: bool,
    current_dir: Option<String>,
    time: Timestamp,
) -> (res: Option<HistoryEntry>)
    requires
        time.valid(),
    ensures
        !allow_sensitive && sensitive(command@) ==> res is None,
        allow_sensitive || !sensitive(command@) ==> (res matches Some(e) && {
            &&& e.id is None
            &&& e.command@ == command@
            &&& e.cwd@ == cwd_to_record(opt_view(cwd), opt_view(current_dir))
            &&& e.exit_code == exit_code
            &&& e.duration_ms == duration_ms
            &&& e.timestamp == time
            &&& e.wf()
        }),
{
    if !allow_sensitive && is_sensitive_command(command.as_str()) {
        return None;
    }
    let cwd = get_cwd(cwd, current_dir);
    Some(HistoryEntry { id: None, command, cwd, exit_code, duration_ms, timestamp: time })
}

/// The search to run for a `search` command.
#[derive(Debug)]
pub struct SearchPlan {
    pub keyword: String,
    pub limit: Option<usize>,
    pub cwd: Option<String>,
    pub failed_only: bool,
}

/// The search that a `search` command runs: its keyword, its limit or else 50, its directory
/// trimmed (no directory filter when that is empty), and whether only failed commands count.
pub fn handle_search(
    keyword: String,
    limit: Option<usize>,
    cwd: Option<String>,
    failed_only: bool,
) -> (res: SearchPlan)
    ensures
        res.keyword@ == keyword@,
        res.limit == match limit {
            Some(l) => Some(l),
            None => Some(50usize),
        },
        opt_view(res.cwd) == cwd_filter(opt_view(cwd)),
        res.failed_only == failed_only,
{
    let limit = match limit {
        Some(l) => Some(l),
        None => Some(50),
    };
    SearchPlan { keyword, limit, cwd: trimmed_filter(&cwd), failed_only }
}

/// The interactive search that a `tui` command starts: reversed unless `forward`.
pub fn handle_tui(
    keyword: Option<String>,
    cwd: Option<String>,
    limit: Option<usize>,
    failed_only: bool,
    forward: bool,
) -> (res: TuiRequest)
    ensures
        res.keyword == keyword,
        res.cwd == cwd,
        res.limit == limit,
        res.failed_only == failed_only,
        res.reverse_mode == !forward,
{
    TuiRequest { keyword, cwd, limit, failed_only, reverse_mode: !forward }
}

/// What to do for a command that passed its checks.
#[derive(Debug)]
pub enum Action {
    /// Print the hook script of the shell.
    Init(ShellKind),
    /// Import the shell's history (from `file`, the bytes of a path, when given).
    Import { shell: String, file: Option<Vec<u8>>, allow_sensitive: bool },
    /// Record a command (see `handle_record`).
    Record {
        command: String,
        cwd: Option<String>,
        exit_code: i32,
        duration_ms: u64,
        allow_sensitive: bool,
    },
    /// Run this search and print what it finds.
    Search(SearchPlan),
    /// Start this interactive search.
    Tui(TuiRequest),
}

/// Checks the command, then says what to do for it. `import_file_exists` says whether the file
/// that an import names exists. A refused command gives the error of its check, and nothing is
/// to be done.
pub fn run(cli: Cli, import_file_exists: bool) -> (res: Result<Action, ValidationError>)
    ensures
        res matches Err(e) ==> command_checked(cli.command, import_file_exists, Err(e)),
        res is Ok ==> command_checked(cli.command, import_file_exists, Ok(())),
        res is Ok ==> match (cli.command, res->Ok_0) {
            (Commands::Init { shell }, Action::Init(k)) => shell_kind(shell@) == Some(k),
            (
                Commands::Import { shell, file, allow_sensitive },
                Action::Import { shell: s2, file: f2, allow_sensitive: a2 },
            ) => s2 == shell && f2 == file && a2 == allow_sensitive,
            (
                Commands::Record { command, cwd, exit_code, duration_ms, allow_sensitive },
                Action::Record {
                    command: c2,
                    cwd: w2,
                    exit_code: x2,
                    duration_ms: d2,
                    allow_sensitive: a2,
                },
            ) => c2 == command && w2 == cwd && x2 == exit_code && d2 == duration_ms && a2
                == allow_sensitive,
            (Commands::Search { keyword, limit, cwd, failed_only }, Action::Search(p)) => {
                &&& p.keyword@ == keyword@
                &&& p.limit == match limit {
                    Some(l) => Some(l),
                    None => Some(50usize),
                }
                &&& opt_view(p.cwd) == cwd_filter(opt_view(cwd))
                &&& p.failed_only == failed_only
            },
            (Commands::Tui { keyword, cwd, limit, failed_only, forward }, Action::Tui(r)) => {
                &&& r.keyword == keyword
                &&& r.cwd == cwd
                &&& r.limit == limit
                &&& r.failed_only == failed_only
                &&& r.reverse_mode == !forward
            },
            _ => false,
        },
{
    match validate_command(&cli.command, import_file_exists) {
        Ok(()) => {},
        Err(e) => {
            return Err(e);
        },
    }
    match cli.command {
        Commands::Init { shell } => match ShellKind::from_str(shell.as_str()) {
            Ok(k) => Ok(Action::Init(k)),
            Err(_) => Err(ValidationError::UnsupportedShell(shell)),
        },
        Commands::Import { shell, file, allow_sensitive } => Ok(
            Action::Import { shell, file, allow_sensitive },
        ),
        Commands::Record { command, cwd, exit_code, duration_ms, allow_sensitive } => Ok(
            Action::Record { command, cwd, exit_code, duration_ms, allow_sensitive },
        ),
        Commands::Search { keyword, limit, cwd, failed_only } => Ok(
            Action::Search(handle_search(keyword, limit, cwd, failed_only)),
        ),
        Commands::Tui { keyword, cwd, limit, failed_only, forward } => Ok(
            Action::Tui(handle_tui(keyword, cwd, limit, failed_only, forward)),
        ),
    }
}

} // verus!
