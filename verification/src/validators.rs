//! The checks that a command's arguments pass before anything runs.
use vstd::prelude::*;
use crate::cli::Commands;
use crate::importer::{shell_kind, ShellKind};
use crate::text::{chars_of, opt_bytes, opt_view, push_str, string_of, to_string, trim, trim_chars};
use vstd::slice::slice_to_vec;
use vstd::utf8::{decode_utf8, valid_utf8};

verus! {

/// Why a command is refused.
#[derive(Debug)]
pub enum ValidationError {
    /// The shell is not `bash`, `zsh` or `fish`.
    UnsupportedShell(String),
    /// The command to record is empty once trimmed.
    EmptyCommand,
    /// A search limit of 0.
    ZeroLimit,
    /// A search directory that is empty once trimmed.
    EmptyCwd,
    /// The history file to import (the bytes of its path) does not exist.
    MissingHistoryFile(Vec<u8>),
}

/// The message that explains an error to the user.
pub open spec fn error_message(e: ValidationError) -> Seq<char> {
    match e {
        ValidationError::UnsupportedShell(s) => "Unsupported shell: "@ + s@
            + ". Supported shells are: bash, zsh, fish"@,
        ValidationError::EmptyCommand => "Command cannot be empty"@,
        ValidationError::ZeroLimit => "Search limit must be greater than 0"@,
        ValidationError::EmptyCwd => "Search cwd cannot be empty"@,
        ValidationError::MissingHistoryFile(p) => "History file does not exist: "@ + utf8_lossy(p@),
    }
}

/// The text that the bytes `b` read as UTF-8, each invalid sequence replaced by U+FFFD
/// (what `String::from_utf8_lossy` gives).
pub uninterp spec fn utf8_lossy(b: Seq<u8>) -> Seq<char>;

/// The bytes `b` read as UTF-8 text, each invalid sequence replaced by U+FFFD
/// (`String::from_utf8_lossy`): a path shown to the user. The name `utf8_lossy` stands for its
/// result; of bytes that are valid UTF-8 it is the text they encode, as std documents.
#[verifier::external_body]
fn lossy_text(b: &[u8]) -> (res: String)
    ensures
        res@ == utf8_lossy(b@),
        valid_utf8(b@) ==> res@ == decode_utf8(b@),
{
    String::from_utf8_lossy(b).into_owned()
}

impl ValidationError {
    /// The message that explains the error to the user.
    pub fn message(&self) -> (res: String)
        ensures
            res@ == error_message(*self),
            match *self {
                ValidationError::MissingHistoryFile(p) => valid_utf8(p@) ==> res@
                    == "History file does not exist: "@ + decode_utf8(p@),
                _ => true,
            },
    {
        match self {
            ValidationError::UnsupportedShell(s) => {
                let mut v: Vec<char> = Vec::new();
                push_str(&mut v, "Unsupported shell: ");
                push_str(&mut v, s.as_str());
                push_str(&mut v, ". Supported shells are: bash, zsh, fish");
                string_of(&v)
            },
            ValidationError::EmptyCommand => to_string("Command cannot be empty"),
            ValidationError::ZeroLimit => to_string("Search limit must be greater than 0"),
            ValidationError::EmptyCwd => to_string("Search cwd cannot be empty"),
            ValidationError::MissingHistoryFile(p) => {
                let mut v: Vec<char> = Vec::new();
                push_str(&mut v, "History file does not exist: ");
                let shown = lossy_text(p.as_slice());
                push_str(&mut v, shown.as_str());
                string_of(&v)
            },
        }
    }
}

/// The outcome of checking a shell name: accepted exactly when it is `bash`, `zsh` or `fish`.
pub open spec fn shell_checked(shell: Seq<char>, res: Result<(), ValidationError>) -> bool {
    if shell_kind(shell) is Some {
        res is Ok
    } else {
        res matches Err(ValidationError::UnsupportedShell(s)) && s@ == shell
    }
}

/// The outcome of checking a command to record: refused exactly when empty once trimmed.
pub open spec fn record_checked(command: Seq<char>, res: Result<(), ValidationError>) -> bool {
    if trim(command).len() == 0 {
        res matches Err(ValidationError::EmptyCommand)
    } else {
        res is Ok
    }
}

/// The outcome of checking search options: a limit of 0 is refused first, then a directory that
/// is empty once trimmed.
pub open spec fn search_checked(
    limit: Option<usize>,
    cwd: Option<Seq<char>>,
    res: Result<(), ValidationError>,
) -> bool {
    if limit == Some(0usize) {
        res matches Err(ValidationError::ZeroLimit)
    } else if cwd matches Some(c) && trim(c).len() == 0 {
        res matches Err(ValidationError::EmptyCwd)
    } else {
        res is Ok
    }
}

/// The outcome of checking an import: the shell first, then that a given file exists.
pub open spec fn import_checked(
    shell: Seq<char>,
    file: Option<Seq<u8>>,
    file_exists: bool,
    res: Result<(), ValidationError>,
) -> bool {
    if shell_kind(shell) is None {
        res matches Err(ValidationError::UnsupportedShell(s)) && s@ == shell
    } else if file is Some && !file_exists {
        res matches Err(ValidationError::MissingHistoryFile(p)) && p@ == file->0
    } else {
        res is Ok
    }
}

/// The view of an optional text.
pub open spec fn opt_str_view(o: Option<&str>) -> Option<Seq<char>> {
    match o {
        Some(s) => Some(s@),
        None => None,
    }
}

/// The view of an optional byte string.
pub open spec fn opt_slice_view(o: Option<&[u8]>) -> Option<Seq<u8>> {
    match o {
        Some(b) => Some(b@),
        None => None,
    }
}

/// Accepts `bash`, `zsh` and `fish`.
pub fn validate_shell(shell: &str) -> (res: Result<(), ValidationError>)
    ensures
        shell_checked(shell@, res),
{
    match ShellKind::from_str(shell) {
        Ok(_) => Ok(()),
        Err(_) => Err(ValidationError::UnsupportedShell(to_string(shell))),
    }
}

/// Refuses a command that is empty once trimmed.
pub fn validate_record(command: &str) -> (res: Result<(), ValidationError>)
    ensures
        record_checked(command@, res),
{
    let t = trim_chars(&chars_of(command));
    if t.len() == 0 {
        Err(ValidationError::EmptyCommand)
    } else {
        Ok(())
    }
}

/// Refuses a limit of 0, then a directory that is empty once trimmed.
pub fn validate_search(limit: Option<usize>, cwd: Option<&str>) -> (res: Result<(), ValidationError>)
    ensures
        search_checked(limit, opt_str_view(cwd), res),
{
    if let Some(l) = limit {
        if l == 0 {
            return Err(ValidationError::ZeroLimit);
        }
    }
    if let Some(c) = cwd {
        let t = trim_chars(&chars_of(c));
        if t.len() == 0 {
            return Err(ValidationError::EmptyCwd);
        }
    }
    Ok(())
}

/// Checks the shell, then that the file to import (when one is given) exists; `file_exists`
/// says whether it does. The file is given by the bytes of its path.
pub fn validate_import(shell: &str, file: Option<&[u8]>, file_exists: bool) -> (res: Result<(), ValidationError>)
    ensures
        import_checked(shell@, opt_slice_view(file), file_exists, res),
{
    match validate_shell(shell) {
        Ok(()) => {},
        Err(e) => {
            return Err(e);
        },
    }
    if let Some(path) = file {
        if !file_exists {
            return Err(ValidationError::MissingHistoryFile(slice_to_vec(path)));
        }
    }
    Ok(())
}

/// The outcome of checking a command, as the check of its kind says.
pub open spec fn command_checked(
    command: Commands,
    import_file_exists: bool,
    res: Result<(), ValidationError>,
) -> bool {
    match command {
        Commands::Record { command, .. } => record_checked(command@, res),
        Commands::Search { limit, cwd, .. } => search_checked(limit, opt_view(cwd), res),
        Commands::Tui { limit, cwd, .. } => search_checked(limit, opt_view(cwd), res),
        Commands::Import { shell, file, .. } => import_checked(
            shell@,
            opt_bytes(file),
            import_file_exists,
            res,
        ),
        Commands::Init { shell } => shell_checked(shell@, res),
    }
}

/// Checks a command's arguments. `import_file_exists` says whether the file that an import names
/// exists (it matters only for an import that names one).
pub fn validate_command(command: &Commands, import_file_exists: bool) -> (res: Result<(), ValidationError>)
    ensures
        command_checked(*command, import_file_exists, res),
{
    match command {
        Commands::Record { command, .. } => validate_record(command.as_str()),
        Commands::Search { limit, cwd, .. } => {
            let c: Option<&str> = match cwd {
                Some(s) => Some(s.as_str()),
                None => None,
            };
            validate_search(*limit, c)
        },
        Commands::Tui { limit, cwd, .. } => {
            let c: Option<&str> = match cwd {
                Some(s) => Some(s.as_str()),
                None => None,
            };
            validate_search(*limit, c)
        },
        Commands::Import { shell, file, .. } => {
            let f: Option<&[u8]> = match file {
                Some(b) => Some(b.as_slice()),
                None => None,
            };
            validate_import(shell.as_str(), f, import_file_exists)
        },
        Commands::Init { shell } => validate_shell(shell.as_str()),
    }
}

} // verus!
