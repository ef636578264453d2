//! Importing an existing shell history: where it lives, how it reads, and how each record is
//! judged (kept, skipped as empty, skipped as sensitive, or skipped as already stored).
use vstd::prelude::*;
use crate::importer_parsers::{
    bash_history, fish_history, parse_bash_history, parse_fish_history, parse_zsh_history,
    records_view, time_ok, times_ok, zsh_history, ImportRecord, RecordSpec,
};
use crate::model::HistoryEntry;
use crate::privacy::{is_sensitive_command, sensitive};
use crate::text::{
    chars_of, join_path, join_path_exec, opt_bytes, str_eq, string_of, to_string, trim, trim_chars,
};
use vstd::string::StringSliceAdditionalSpecFns;
use crate::time::{now, Timestamp};

verus! {

/// The shells whose history files can be imported.
#[derive(Clone, Copy, Debug, PartialEq, Eq, Structural)]
pub enum ShellKind {
    Bash,
    Zsh,
    Fish,
}

/// Why an import cannot start.
#[derive(Debug)]
pub enum ImportError {
    /// The shell is not one of `bash`, `zsh`, `fish`.
    UnsupportedShell(String),
    /// No file was given and the home directory is unknown.
    NoHomeDirectory,
}

/// The shell that a name stands for.
pub open spec fn shell_kind(name: Seq<char>) -> Option<ShellKind> {
    if name == "bash"@ {
        Some(ShellKind::Bash)
    } else if name == "zsh"@ {
        Some(ShellKind::Zsh)
    } else if name == "fish"@ {
        Some(ShellKind::Fish)
    } else {
        None
    }
}

/// Where a shell keeps its history, relative to the home directory (the bytes of the path).
pub open spec fn history_file_of(kind: ShellKind) -> Seq<u8> {
    match kind {
        ShellKind::Bash => ".bash_history".spec_bytes(),
        ShellKind::Zsh => ".zsh_history".spec_bytes(),
        ShellKind::Fish => ".local/share/fish/fish_history".spec_bytes(),
    }
}

/// The records of a history file of the given shell.
pub open spec fn history_records(kind: ShellKind, content: Seq<char>) -> Seq<RecordSpec> {
    match kind {
        ShellKind::Bash => bash_history(content),
        ShellKind::Zsh => zsh_history(content),
        ShellKind::Fish => fish_history(content),
    }
}

impl ShellKind {
    /// `"bash"`, `"zsh"` or `"fish"`; any other name is refused as unsupported.
    pub fn from_str(shell: &str) -> (res: Result<ShellKind, ImportError>)
        ensures
            match shell_kind(shell@) {
                Some(k) => res == Ok::<ShellKind, ImportError>(k),
                None => res matches Err(ImportError::UnsupportedShell(s)) && s@ == shell@,
            },
    {
        if str_eq(shell, "bash") {
            Ok(ShellKind::Bash)
        } else if str_eq(shell, "zsh") {
            Ok(ShellKind::Zsh)
        } else if str_eq(shell, "fish") {
            Ok(ShellKind::Fish)
        } else {
            Err(ImportError::UnsupportedShell(to_string(shell)))
        }
    }

    /// The history file of the shell, relative to the home directory.
    pub fn history_file(self) -> (res: &'static str)
        ensures
            res.spec_bytes() == history_file_of(self),
    {
        match self {
            ShellKind::Bash => ".bash_history",
            ShellKind::Zsh => ".zsh_history",
            ShellKind::Fish => ".local/share/fish/fish_history",
        }
    }
}

/// Reads a history file's text into records, by the format of the given shell. Every time
/// that a record carries is one `chrono` represents.
pub fn parse_history(kind: ShellKind, content: &str) -> (res: Vec<ImportRecord>)
    ensures
        records_view(res@) == history_records(kind, content@),
        times_ok(records_view(res@)),
{
    proof {
        crate::importer_parsers::lemma_bash_history(content@);
        crate::importer_parsers::lemma_zsh_history(content@);
        crate::importer_parsers::lemma_fish_history(content@);
    }
    match kind {
        ShellKind::Bash => parse_bash_history(content),
        ShellKind::Zsh => parse_zsh_history(content),
        ShellKind::Fish => parse_fish_history(content),
    }
}

/// The home directory (`dirs::home_dir`), as the bytes of its path; `None` where it is unknown.
/// Nothing is promised of which directory it is: it comes from the process's environment variables.
#[verifier::external_body]
fn home_dir() -> (res: Option<Vec<u8>>)
{
    match dirs::home_dir() {
        Some(p) => Some(p.into_os_string().into_encoded_bytes()),
        None => None,
    }
}

/// `res` is what looking up the default history file of `shell` gives when the home
/// directory is `home`: no home directory fails first, then an unsupported shell; otherwise the
/// shell's history file under the home directory.
pub open spec fn history_path_result(
    home: Option<Seq<u8>>,
    shell: Seq<char>,
    res: Result<Vec<u8>, ImportError>,
) -> bool {
    match home {
        None => res matches Err(ImportError::NoHomeDirectory),
        Some(h) => match shell_kind(shell) {
            Some(k) => res matches Ok(p) && p@ == join_path(h, history_file_of(k)),
            None => res matches Err(ImportError::UnsupportedShell(s)) && s@ == shell,
        },
    }
}

/// The default history file of `shell` under the home directory `home` (the bytes of its path).
pub fn history_path_in(home: Option<Vec<u8>>, shell: &str) -> (res: Result<Vec<u8>, ImportError>)
    ensures
        history_path_result(opt_bytes(home), shell@, res),
{
    match home {
        None => Err(ImportError::NoHomeDirectory),
        Some(h) => match ShellKind::from_str(shell) {
            Ok(k) => Ok(join_path_exec(h.as_slice(), k.history_file())),
            Err(e) => Err(e),
        },
    }
}

/// Where `shell` keeps its history by default: its history file under the home directory.
/// Fails when the home directory is unknown, or else when the shell is unsupported.
pub fn default_history_path(shell: &str) -> (res: Result<Vec<u8>, ImportError>)
    ensures
        exists|home: Option<Seq<u8>>| #[trigger] history_path_result(home, shell@, res),
{
    let home = home_dir();
    let ghost h = opt_bytes(home);
    let res = history_path_in(home, shell);
    assert(history_path_result(h, shell@, res));
    res
}

/// What an import reads and from where: the shell's format, and the file given or else the
/// shell's default history file (paths as bytes). An unsupported shell fails before anything else.
pub fn import_source(shell: &str, file: Option<Vec<u8>>) -> (res: Result<(ShellKind, Vec<u8>), ImportError>)
    ensures
        match shell_kind(shell@) {
            None => res matches Err(ImportError::UnsupportedShell(s)) && s@ == shell@,
            Some(k) => match file {
                Some(f) => res matches Ok((kk, p)) && kk == k && p@ == f@,
                None => match res {
                    Ok((kk, p)) => kk == k && exists|h: Seq<u8>| #[trigger] join_path(h, history_file_of(k)) == p@,
                    Err(e) => e is NoHomeDirectory,
                },
            },
        },
{
    let kind = match ShellKind::from_str(shell) {
        Ok(k) => k,
        Err(e) => {
            return Err(e);
        },
    };
    match file {
        Some(f) => Ok((kind, f)),
        None => match default_history_path(shell) {
            Ok(p) => Ok((kind, p)),
            Err(e) => Err(e),
        },
    }
}

/// The counts of an import: where it read from, and how each record fared.
#[derive(Debug)]
pub struct ImportStats {
    pub source: Vec<u8>,
    pub imported: usize,
    pub skipped_empty: usize,
    pub skipped_sensitive: usize,
    pub skipped_duplicate: usize,
}

impl ImportStats {
    /// The number of records accounted for.
    pub open spec fn total(&self) -> int {
        self.imported + self.skipped_empty + self.skipped_sensitive + self.skipped_duplicate
    }

    /// No record accounted for yet.
    pub fn new(source: Vec<u8>) -> (res: ImportStats)
        ensures
            res.source == source,
            res.imported == 0,
            res.skipped_empty == 0,
            res.skipped_sensitive == 0,
            res.skipped_duplicate == 0,
    {
        ImportStats { source, imported: 0, skipped_empty: 0, skipped_sensitive: 0, skipped_duplicate: 0 }
    }

    /// Judges one record. A command that is empty once trimmed is skipped as empty; one that is
    /// sensitive is skipped as sensitive unless `allow_sensitive`; any other gives the entry to
    /// store: the trimmed command, cwd `"imported"`, exit code 0, the record's duration, and the
    /// record's time or else the current time. A skip is counted here; the entry is counted by
    /// `settle` once it is known whether it is stored already.
    pub fn prepare(&mut self, record: ImportRecord, allow_sensitive: bool) -> (res: Option<HistoryEntry>)
        requires
            old(self).total() < usize::MAX,
            time_ok(record@),
        ensures
            final(self).source == old(self).source,
            final(self).imported == old(self).imported,
            final(self).skipped_duplicate == old(self).skipped_duplicate,
            res is None ==> final(self).total() == old(self).total() + 1,
            res is Some ==> final(self).total() == old(self).total(),
            res matches Some(e) ==> e.command@.len() > 0 && (allow_sensitive || !sensitive(e.command@)),
            trim(record@.command).len() == 0 ==> {
                &&& res is None
                &&& final(self).skipped_empty == old(self).skipped_empty + 1
                &&& final(self).skipped_sensitive == old(self).skipped_sensitive
            },
            trim(record@.command).len() != 0 && !allow_sensitive && sensitive(trim(record@.command)) ==> {
                &&& res is None
                &&& final(self).skipped_empty == old(self).skipped_empty
                &&& final(self).skipped_sensitive == old(self).skipped_sensitive + 1
            },
            trim(record@.command).len() != 0 && (allow_sensitive || !sensitive(trim(record@.command))) ==> {
                &&& final(self).skipped_empty == old(self).skipped_empty
                &&& final(self).skipped_sensitive == old(self).skipped_sensitive
                &&& res matches Some(e) && {
                    &&& e.id is None
                    &&& e.command@ == trim(record@.command)
                    &&& e.cwd@ == "imported"@
                    &&& e.exit_code == 0
                    &&& e.duration_ms == record@.duration_ms
                    &&& e.wf()
                    &&& record@.timestamp matches Some(t) ==> e.timestamp == t
                }
            },
    {
        let time = match record.timestamp {
            Some(t) => t,
            None => now(),
        };
        self.prepare_at(record, allow_sensitive, time)
    }

    /// Judges one record as `prepare` does, at the time `time`: an entry from a record without a
    /// time is stamped with `time`, whatever time that is.
    pub fn prepare_at(
        &mut self,
        record: ImportRecord,
        allow_sensitive: bool,
        time: Timestamp,
    ) -> (res: Option<HistoryEntry>)
        requires
            time.valid(),
            old(self).total() < usize::MAX,
            time_ok(record@),
        ensures
            final(self).source == old(self).source,
            final(self).imported == old(self).imported,
            final(self).skipped_duplicate == old(self).skipped_duplicate,
            res is None ==> final(self).total() == old(self).total() + 1,
            res is Some ==> final(self).total() == old(self).total(),
            res matches Some(e) ==> e.command@.len() > 0 && (allow_sensitive || !sensitive(e.command@)),
            trim(record@.command).len() == 0 ==> {
                &&& res is None
                &&& final(self).skipped_empty == old(self).skipped_empty + 1
                &&& final(self).skipped_sensitive == old(self).skipped_sensitive
            },
            trim(record@.command).len() != 0 && !allow_sensitive && sensitive(trim(record@.command)) ==> {
                &&& res is None
                &&& final(self).skipped_empty == old(self).skipped_empty
                &&& final(self).skipped_sensitive == old(self).skipped_sensitive + 1
            },
            trim(record@.command).len() != 0 && (allow_sensitive || !sensitive(trim(record@.command))) ==> {
                &&& final(self).skipped_empty == old(self).skipped_empty
                &&& final(self).skipped_sensitive == old(self).skipped_sensitive
                &&& res matches Some(e) && {
                    &&& e.id is None
                    &&& e.command@ == trim(record@.command)
                    &&& e.cwd@ == "imported"@
                    &&& e.exit_code == 0
                    &&& e.duration_ms == record@.duration_ms
                    &&& e.wf()
                    &&& record@.timestamp matches Some(t) ==> e.timestamp == t
                    &&& record@.timestamp is None ==> e.timestamp == time
                }
            },
    {
        let command = string_of(&trim_chars(&chars_of(record.command.as_str())));
        if command.as_str().is_empty() {
            self.skipped_empty = self.skipped_empty + 1;
            return None;
        }
        if !allow_sensitive && is_sensitive_command(command.as_str()) {
            self.skipped_sensitive = self.skipped_sensitive + 1;
            return None;
        }
        let timestamp = match record.timestamp {
            Some(t) => t,
            None => time,
        };
        Some(
            HistoryEntry {
                id: None,
                command,
                cwd: to_string("imported"),
                exit_code: 0,
                duration_ms: record.duration_ms,
                timestamp,
            },
        )
    }

    /// Counts the entry that `prepare` gave: skipped as a duplicate when an entry with the same
    /// command, cwd and time is stored already, else imported. Returns whether to store it.
    pub fn settle(&mut self, already_stored: bool) -> (store: bool)
        requires
            old(self).total() < usize::MAX,
        ensures
            store == !already_stored,
            final(self).total() == old(self).total() + 1,
            final(self).source == old(self).source,
            final(self).skipped_empty == old(self).skipped_empty,
            final(self).skipped_sensitive == old(self).skipped_sensitive,
            final(self).imported == old(self).imported + (if already_stored { 0int } else { 1 }),
            final(self).skipped_duplicate == old(self).skipped_duplicate + (if already_stored { 1int } else { 0 }),
    {
        if already_stored {
            self.skipped_duplicate = self.skipped_duplicate + 1;
            false
        } else {
            self.imported = self.imported + 1;
            true
        }
    }
}

} // verus!
