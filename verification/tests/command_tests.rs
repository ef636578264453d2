use ratuin::cli::{Cli, Commands};
use ratuin::handlers::{get_cwd, handle_record, handle_search, handle_tui, run, Action};
use ratuin::importer::ShellKind;
use ratuin::validators::{
    validate_command, validate_import, validate_record, validate_search, validate_shell, ValidationError,
};

fn search(limit: Option<usize>, cwd: Option<&str>) -> Commands {
    Commands::Search { keyword: "k".to_string(), limit, cwd: cwd.map(|c| c.to_string()), failed_only: false }
}

#[test]
fn shells_accepted_and_refused() {
    assert!(validate_shell("bash").is_ok());
    assert!(validate_shell("zsh").is_ok());
    assert!(validate_shell("fish").is_ok());
    let e = validate_shell("powershell").unwrap_err();
    assert_eq!(e.message(), "Unsupported shell: powershell. Supported shells are: bash, zsh, fish");
}

#[test]
fn empty_record_refused() {
    assert!(validate_record("ls").is_ok());
    let e = validate_record(" \t ").unwrap_err();
    assert!(matches!(e, ValidationError::EmptyCommand));
    assert_eq!(e.message(), "Command cannot be empty");
}

#[test]
fn search_limit_zero_refused_first() {
    assert!(matches!(validate_search(Some(0), Some(" ")), Err(ValidationError::ZeroLimit)));
    assert_eq!(validate_search(Some(0), None).unwrap_err().message(), "Search limit must be greater than 0");
    let e = validate_search(Some(1), Some("  ")).unwrap_err();
    assert_eq!(e.message(), "Search cwd cannot be empty");
    assert!(validate_search(None, None).is_ok());
    assert!(validate_search(Some(5), Some("/x")).is_ok());
}

#[test]
fn import_checks_shell_then_file() {
    assert!(matches!(validate_import("csh", Some(b"/nope".as_slice()), false), Err(ValidationError::UnsupportedShell(_))));
    let e = validate_import("zsh", Some(b"/nope".as_slice()), false).unwrap_err();
    assert_eq!(e.message(), "History file does not exist: /nope");
    let e = validate_import("zsh", Some(b"/n\xffpe".as_slice()), false).unwrap_err();
    assert_eq!(e.message(), "History file does not exist: /n\u{fffd}pe");
    assert!(validate_import("zsh", None, false).is_ok());
    assert!(validate_import("zsh", Some(b"/yes".as_slice()), true).is_ok());
}

#[test]
fn command_checks_by_kind() {
    assert!(validate_command(&search(Some(0), None), true).is_err());
    assert!(validate_command(&search(None, None), true).is_ok());
    let tui = Commands::Tui { keyword: None, cwd: Some(" ".to_string()), limit: None, failed_only: false, forward: false };
    assert!(matches!(validate_command(&tui, true), Err(ValidationError::EmptyCwd)));
    let init = Commands::Init { shell: "elvish".to_string() };
    assert!(validate_command(&init, true).is_err());
}

#[test]
fn cwd_to_record() {
    assert_eq!(get_cwd(Some("/a".to_string()), Some("/cur".to_string())), "/a");
    assert_eq!(get_cwd(Some("".to_string()), Some("/cur".to_string())), "/cur");
    assert_eq!(get_cwd(None, None), "unknown");
    assert_eq!(get_cwd(Some(" ".to_string()), None), " ");
}

#[test]
fn record_skips_sensitive_unless_allowed() {
    assert!(handle_record("export SECRET=1".to_string(), None, 0, 0, false, None).is_none());
    let e = handle_record("export SECRET=1".to_string(), None, 3, 40, true, Some("/cur".to_string())).expect("allowed");
    assert_eq!((e.command.as_str(), e.cwd.as_str(), e.exit_code, e.duration_ms), ("export SECRET=1", "/cur", 3, 40));
    assert_eq!(e.id, None);
}

#[test]
fn search_defaults_and_trims() {
    let p = handle_search("cgo".to_string(), None, Some("  /p  ".to_string()), true);
    assert_eq!(p.keyword, "cgo");
    assert_eq!(p.limit, Some(50));
    assert_eq!(p.cwd.as_deref(), Some("/p"));
    assert!(p.failed_only);
    let q = handle_search("x".to_string(), Some(3), Some("".to_string()), false);
    assert_eq!(q.limit, Some(3));
    assert_eq!(q.cwd, None);
}

#[test]
fn tui_is_reversed_unless_forward() {
    assert!(handle_tui(None, None, None, false, false).reverse_mode);
    assert!(!handle_tui(None, None, None, false, true).reverse_mode);
}

#[test]
fn run_checks_then_plans() {
    let bad = Cli { command: search(Some(0), None) };
    assert!(matches!(run(bad, true), Err(ValidationError::ZeroLimit)));
    let init = Cli { command: Commands::Init { shell: "fish".to_string() } };
    assert!(matches!(run(init, true), Ok(Action::Init(ShellKind::Fish))));
    let s = Cli { command: search(None, Some(" /w ")) };
    match run(s, true) {
        Ok(Action::Search(p)) => {
            assert_eq!(p.limit, Some(50));
            assert_eq!(p.cwd.as_deref(), Some("/w"));
        },
        other => panic!("{other:?}"),
    }
    let imp = Cli { command: Commands::Import { shell: "bash".to_string(), file: Some(b"/f".to_vec()), allow_sensitive: false } };
    assert!(matches!(run(imp, false), Err(ValidationError::MissingHistoryFile(_))));
}
