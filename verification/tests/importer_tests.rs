use ratuin::importer::{history_path_in, import_source, ImportError, ImportStats, ShellKind};
use ratuin::importer_parsers::ImportRecord;
use ratuin::time::Timestamp;

fn record(command: &str, secs: Option<i64>, duration_ms: u64) -> ImportRecord {
    ImportRecord {
        command: command.to_string(),
        timestamp: secs.map(|s| Timestamp { secs: s, nanos: 0 }),
        duration_ms,
    }
}

#[test]
fn shell_names() {
    assert_eq!(ShellKind::from_str("bash").ok(), Some(ShellKind::Bash));
    assert_eq!(ShellKind::from_str("zsh").ok(), Some(ShellKind::Zsh));
    assert_eq!(ShellKind::from_str("fish").ok(), Some(ShellKind::Fish));
    match ShellKind::from_str("Bash") {
        Err(ImportError::UnsupportedShell(s)) => assert_eq!(s, "Bash"),
        other => panic!("{other:?}"),
    }
}

#[test]
fn default_history_files() {
    assert_eq!(history_path_in(Some(b"/home/al".to_vec()), "bash").ok(), Some(b"/home/al/.bash_history".to_vec()));
    assert_eq!(history_path_in(Some(b"/home/al/".to_vec()), "zsh").ok(), Some(b"/home/al/.zsh_history".to_vec()));
    assert_eq!(
        history_path_in(Some(b"/h".to_vec()), "fish").ok(),
        Some(b"/h/.local/share/fish/fish_history".to_vec())
    );
    assert_eq!(history_path_in(Some(b"/home/\xff".to_vec()), "bash").ok(), Some(b"/home/\xff/.bash_history".to_vec()));
}

#[test]
fn missing_home_fails_before_shell_check() {
    assert!(matches!(history_path_in(None, "nu"), Err(ImportError::NoHomeDirectory)));
    assert!(matches!(history_path_in(Some(b"/h".to_vec()), "nu"), Err(ImportError::UnsupportedShell(s)) if s == "nu"));
}

#[test]
fn import_source_prefers_given_file() {
    match import_source("zsh", Some(b"/tmp/h".to_vec())) {
        Ok((k, p)) => {
            assert_eq!(k, ShellKind::Zsh);
            assert_eq!(p, b"/tmp/h".to_vec());
        },
        Err(e) => panic!("{e:?}"),
    }
    assert!(matches!(import_source("tcsh", Some(b"/tmp/h".to_vec())), Err(ImportError::UnsupportedShell(_))));
}

#[test]
fn empty_commands_are_skipped() {
    let mut stats = ImportStats::new(b"src".to_vec());
    assert!(stats.prepare(record("   ", Some(1), 0), false).is_none());
    assert_eq!((stats.imported, stats.skipped_empty, stats.skipped_sensitive, stats.skipped_duplicate), (0, 1, 0, 0));
}

#[test]
fn sensitive_commands_are_skipped_by_default() {
    let mut stats = ImportStats::new(b"src".to_vec());
    assert!(stats.prepare(record("export TOKEN=1", None, 0), false).is_none());
    assert_eq!(stats.skipped_sensitive, 1);
    let entry = stats.prepare(record("export TOKEN=1", Some(5), 0), true).expect("allowed");
    assert_eq!(entry.command, "export TOKEN=1");
    assert_eq!(stats.skipped_sensitive, 1);
}

#[test]
fn prepared_entry_carries_the_record() {
    let mut stats = ImportStats::new(b"f".to_vec());
    let e = stats.prepare(record("  cargo build \n", Some(1700000000), 3000), false).expect("kept");
    assert_eq!(e.id, None);
    assert_eq!(e.command, "cargo build");
    assert_eq!(e.cwd, "imported");
    assert_eq!(e.exit_code, 0);
    assert_eq!(e.duration_ms, 3000);
    assert_eq!(e.timestamp, Timestamp { secs: 1700000000, nanos: 0 });
}

#[test]
fn record_without_time_takes_current_time() {
    let mut stats = ImportStats::new(b"f".to_vec());
    let e = stats.prepare(record("ls", None, 0), false).expect("kept");
    assert!(e.timestamp.secs > 1_600_000_000);
}

#[test]
fn duplicates_and_imports_are_counted() {
    let mut stats = ImportStats::new(b"f".to_vec());
    assert!(stats.settle(false));
    assert!(!stats.settle(true));
    assert!(stats.settle(false));
    assert_eq!((stats.imported, stats.skipped_duplicate), (2, 1));
    assert_eq!(stats.source, b"f".to_vec());
}

#[test]
fn every_record_is_counted_once() {
    let mut stats = ImportStats::new(b"f".to_vec());
    let records = vec![record("", None, 0), record("password=1", None, 0), record("ls", Some(1), 0), record("ls", Some(1), 0)];
    let mut stored: Vec<(String, i64)> = Vec::new();
    let n = records.len();
    for r in records {
        if let Some(e) = stats.prepare(r, false) {
            let key = (e.command.clone(), e.timestamp.secs);
            let dup = stored.contains(&key);
            if stats.settle(dup) {
                stored.push(key);
            }
        }
    }
    assert_eq!(stats.imported + stats.skipped_empty + stats.skipped_sensitive + stats.skipped_duplicate, n);
    assert_eq!((stats.imported, stats.skipped_empty, stats.skipped_sensitive, stats.skipped_duplicate), (1, 1, 1, 1));
}
