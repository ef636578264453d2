use ratuin::db::{
    build_search_query, data_dir_in, entry_from_row, db_path, exists_params, insert_params, map_history_entry, push_if_fuzzy_match,
    schema, search_step, DbError, RawHistoryRow,
};
use ratuin::model::HistoryEntry;
use ratuin::time::Timestamp;

fn entry(command: &str, duration_ms: u64, secs: i64, nanos: u32) -> HistoryEntry {
    HistoryEntry {
        id: None,
        command: command.to_string(),
        cwd: "/w".to_string(),
        exit_code: 1,
        duration_ms,
        timestamp: Timestamp { secs, nanos },
    }
}

fn row(command: &str, duration_ms: i64, timestamp: &str) -> RawHistoryRow {
    RawHistoryRow {
        id: Some(7),
        command: command.to_string(),
        cwd: "/w".to_string(),
        exit_code: 2,
        duration_ms,
        timestamp: timestamp.to_string(),
    }
}

#[test]
fn search_query_text() {
    assert_eq!(
        build_search_query(false, false),
        "\n        SELECT id, command, cwd, exit_code, duration_ms, timestamp\n        FROM history\n        WHERE 1 = 1\n         ORDER BY id DESC"
    );
    assert_eq!(
        build_search_query(true, true),
        "\n        SELECT id, command, cwd, exit_code, duration_ms, timestamp\n        FROM history\n        WHERE exit_code != 0\n         AND cwd = ?1 ORDER BY id DESC"
    );
}

#[test]
fn schema_creates_history_table() {
    assert!(schema().contains("CREATE TABLE IF NOT EXISTS history"));
}

#[test]
fn row_maps_to_entry() {
    match map_history_entry(row("ls", 12, "2023-11-14T22:13:20+00:00")) {
        Ok(e) => {
            assert_eq!(e.id, Some(7));
            assert_eq!(e.command, "ls");
            assert_eq!(e.cwd, "/w");
            assert_eq!(e.exit_code, 2);
            assert_eq!(e.duration_ms, 12);
            assert_eq!(e.timestamp, Timestamp { secs: 1700000000, nanos: 0 });
        },
        Err(e) => panic!("{e:?}"),
    }
}

#[test]
fn row_time_with_offset_and_fraction() {
    let e = map_history_entry(row("ls", 0, "2023-11-14T23:13:20.5+01:00")).expect("valid");
    assert_eq!(e.timestamp, Timestamp { secs: 1700000000, nanos: 500_000_000 });
}

#[test]
fn negative_duration_is_refused_first() {
    assert!(matches!(map_history_entry(row("ls", -1, "garbage")), Err(DbError::NegativeDuration(-1))));
}

#[test]
fn bad_time_text_is_refused() {
    assert!(matches!(map_history_entry(row("ls", 0, "yesterday")), Err(DbError::BadTimestamp(t)) if t == "yesterday"));
}

#[test]
fn insert_values_use_rfc3339() {
    let p = insert_params(&entry("ls", 5, 0, 0)).expect("fits");
    assert_eq!(p.timestamp, "1970-01-01T00:00:00+00:00");
    assert_eq!((p.command.as_str(), p.cwd.as_str(), p.exit_code, p.duration_ms), ("ls", "/w", 1, 5));
    let q = insert_params(&entry("ls", 5, 1700000000, 123_000_000)).expect("fits");
    assert_eq!(q.timestamp, "2023-11-14T22:13:20.123+00:00");
}

#[test]
fn huge_duration_is_refused() {
    assert!(matches!(insert_params(&entry("ls", u64::MAX, 0, 0)), Err(DbError::DurationTooLarge(d)) if d == u64::MAX));
    assert!(insert_params(&entry("ls", i64::MAX as u64, 0, 0)).is_ok());
}

#[test]
fn duplicate_key_values() {
    let (c, w, t) = exists_params(&entry("git st", 0, 1700000000, 0));
    assert_eq!((c.as_str(), w.as_str(), t.as_str()), ("git st", "/w", "2023-11-14T22:13:20+00:00"));
}

#[test]
fn stored_time_round_trips() {
    let e = entry("x", 0, 1700000000, 250_000_000);
    let p = insert_params(&e).expect("fits");
    let back = map_history_entry(row("x", 0, &p.timestamp)).expect("valid");
    assert_eq!(back.timestamp, e.timestamp);
}

#[test]
fn stored_time_round_trips_at_four_digit_year_edges() {
    for (secs, nanos) in [(-62167219200i64, 0u32), (-62167219200, 999_999_999), (253402300799, 999_999_999), (-1, 1), (59, 1_999_999_999)] {
        let e = entry("x", 0, secs, nanos);
        let p = insert_params(&e).expect("fits");
        let back = map_history_entry(row("x", 0, &p.timestamp)).expect("valid");
        assert_eq!(back.timestamp, e.timestamp, "{}", p.timestamp);
    }
    let early = insert_params(&entry("x", 0, -62167219201, 0)).expect("fits");
    assert!(matches!(map_history_entry(row("x", 0, &early.timestamp)), Err(DbError::BadTimestamp(_))));
    let late = insert_params(&entry("x", 0, 253402300800, 0)).expect("fits");
    assert!(matches!(map_history_entry(row("x", 0, &late.timestamp)), Err(DbError::BadTimestamp(_))));
}

#[test]
fn push_keeps_only_matches_and_stops_at_limit() {
    let mut entries = Vec::new();
    assert!(!push_if_fuzzy_match(&mut entries, "cgo", entry("ls", 0, 0, 0), Some(2)));
    assert_eq!(entries.len(), 0);
    assert!(!push_if_fuzzy_match(&mut entries, "cgo", entry("cargo", 0, 0, 0), Some(2)));
    assert!(push_if_fuzzy_match(&mut entries, "cgo", entry("cargo go", 0, 0, 0), Some(2)));
    assert_eq!(entries.len(), 2);
    let mut all = Vec::new();
    for _ in 0..5 {
        assert!(!push_if_fuzzy_match(&mut all, "", entry("a", 0, 0, 0), None));
    }
    assert_eq!(all.len(), 5);
}

#[test]
fn search_step_reads_and_filters_rows() {
    let mut entries = Vec::new();
    assert!(!search_step(&mut entries, "ls", row("ls -la", 0, "1970-01-01T00:00:00Z"), Some(5)).expect("ok"));
    assert!(!search_step(&mut entries, "ls", row("pwd", 0, "1970-01-01T00:00:00Z"), Some(5)).expect("ok"));
    assert!(search_step(&mut entries, "ls", row("pwd", 0, "bad"), Some(5)).is_err());
    assert_eq!(entries.len(), 1);
    assert_eq!(entries[0].command, "ls -la");
}

#[test]
fn database_file_in_data_dir() {
    assert_eq!(db_path(b"/data/ratuin"), b"/data/ratuin/history.db".to_vec());
    assert_eq!(db_path(b"/data/ratuin/"), b"/data/ratuin/history.db".to_vec());
}

#[test]
fn row_entry_from_parsed_time() {
    let e = entry_from_row(row("ls", 3, "whatever"), Some((59, 1_500_000_000))).expect("leap second");
    assert_eq!(e.timestamp, Timestamp { secs: 59, nanos: 1_500_000_000 });
    assert!(matches!(entry_from_row(row("ls", 3, "t"), Some((58, 1_500_000_000))), Err(DbError::BadTimestamp(_))));
    assert!(matches!(entry_from_row(row("ls", 3, "t"), None), Err(DbError::BadTimestamp(_))));
    assert!(matches!(entry_from_row(row("ls", -3, "t"), None), Err(DbError::NegativeDuration(-3))));
}

#[test]
fn data_dir_under_local_data() {
    assert_eq!(data_dir_in(Some(b"/home/u/.local/share".to_vec())).ok(), Some(b"/home/u/.local/share/ratuin".to_vec()));
    assert_eq!(data_dir_in(Some(b"/d/".to_vec())).ok(), Some(b"/d/ratuin".to_vec()));
    assert_eq!(data_dir_in(Some(b"/d\xe9t\xe9".to_vec())).ok(), Some(b"/d\xe9t\xe9/ratuin".to_vec()));
    assert!(matches!(data_dir_in(None), Err(DbError::NoDataDirectory)));
}
