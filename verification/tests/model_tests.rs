use ratuin::model::{elapsed_text, relative_time_at, relative_time_text, HistoryEntry};
use ratuin::time::Timestamp;

fn entry(id: Option<i64>) -> HistoryEntry {
    HistoryEntry {
        id,
        command: "cargo check".to_string(),
        cwd: "/p".to_string(),
        exit_code: -3,
        duration_ms: 120,
        timestamp: Timestamp { secs: 1700000000, nanos: 0 },
    }
}

#[test]
fn relative_time_units() {
    assert_eq!(elapsed_text(-5), "0s ago");
    assert_eq!(elapsed_text(0), "0s ago");
    assert_eq!(elapsed_text(59), "59s ago");
    assert_eq!(elapsed_text(60), "1m ago");
    assert_eq!(elapsed_text(3599), "59m ago");
    assert_eq!(elapsed_text(3600), "1h ago");
    assert_eq!(elapsed_text(86399), "23h ago");
    assert_eq!(elapsed_text(86400), "1d ago");
    assert_eq!(elapsed_text(i64::MAX), format!("{}d ago", i64::MAX / 86400));
}

#[test]
fn id_prefix() {
    assert_eq!(entry(Some(42)).display_id(), "[42] ");
    assert_eq!(entry(Some(-1)).display_id(), "[-1] ");
    assert_eq!(entry(None).display_id(), "None ");
}

#[test]
fn time_format() {
    assert_eq!(entry(None).formatted_time(), "2023-11-14 22:13:20");
}

#[test]
fn five_line_description() {
    let text = entry(Some(42)).describe_with("120ms", "3d ago");
    assert_eq!(
        text,
        "[42] cargo check\n     cwd: /p\n     exit code: -3, duration: 120ms\n     time: 2023-11-14 22:13:20\n     executed: 3d ago"
    );
}

#[test]
fn description_of_entry_without_id() {
    let text = entry(None).describe_with("1.50s", "0s ago");
    assert!(text.starts_with("None cargo check\n     cwd: /p\n"));
}

#[test]
fn time_passed_counts_from_now() {
    let text = entry(None).time_passed();
    assert!(text.ends_with("d ago"), "{text}");
    let d = entry(None).describe("120ms");
    assert!(d.ends_with("d ago"));
}

#[test]
fn relative_time_between_two_times() {
    let t = |secs, nanos| Timestamp { secs, nanos };
    assert_eq!(relative_time_at(&t(0, 0), &t(90, 0)), "1m ago");
    assert_eq!(relative_time_at(&t(100, 500_000_000), &t(100, 400_000_000)), "0s ago");
    assert_eq!(relative_time_at(&t(0, 0), &t(-7200, 0)), "0s ago");
    assert_eq!(relative_time_at(&t(59, 1_500_000_000), &t(119, 0)), "59s ago");
    assert_eq!(relative_time_at(&t(1700000000, 0), &t(1700000000 + 3 * 86400 + 5, 0)), "3d ago");
}

#[test]
fn relative_time_and_time_passed_agree_on_a_clock() {
    let e = entry(None);
    let now = Timestamp { secs: 1700000000 + 7200, nanos: 0 };
    assert_eq!(e.time_passed_at(&now), relative_time_at(&e.timestamp, &now));
    assert_eq!(e.time_passed_at(&now), "2h ago");
    assert!(relative_time_text(&e.timestamp).ends_with("d ago"));
}
