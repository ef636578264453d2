use ratuin::model::HistoryEntry;
use ratuin::time::Timestamp;
use ratuin::tui::{highlight_flags, AppState, Key, TuiRequest};

fn entry(command: &str) -> HistoryEntry {
    HistoryEntry {
        id: None,
        command: command.to_string(),
        cwd: "/".to_string(),
        exit_code: 0,
        duration_ms: 0,
        timestamp: Timestamp { secs: 0, nanos: 0 },
    }
}

fn request(reverse_mode: bool) -> TuiRequest {
    TuiRequest { keyword: Some("abc".to_string()), cwd: Some("  /tmp ".to_string()), limit: None, failed_only: true, reverse_mode }
}

fn commands(app: &AppState) -> Vec<String> {
    app.entries.iter().map(|e| e.command.clone()).collect()
}

#[test]
fn starting_state() {
    let app = AppState::from_request(request(false));
    assert_eq!(app.query, "abc");
    assert_eq!(app.cwd.as_deref(), Some("/tmp"));
    assert_eq!(app.limit, Some(50));
    assert!(app.failed_only);
    assert!(app.entries.is_empty());
    assert_eq!(app.selected, 0);
    assert!(!app.should_exit);
    assert_eq!(app.selected_command, None);
}

#[test]
fn blank_cwd_gives_no_filter() {
    let app = AppState::from_request(TuiRequest { keyword: None, cwd: Some("   ".to_string()), limit: Some(3), failed_only: false, reverse_mode: false });
    assert_eq!(app.cwd, None);
    assert_eq!(app.query, "");
    assert_eq!(app.limit, Some(3));
}

#[test]
fn reverse_mode_reverses_query_and_results() {
    let mut app = AppState::from_request(request(true));
    assert_eq!(app.effective_query(), "cba");
    assert_eq!(app.render_query(), "cba");
    app.refresh(vec![entry("new"), entry("mid"), entry("old")]);
    assert_eq!(commands(&app), vec!["old", "mid", "new"]);
    let forward = AppState::from_request(request(false));
    assert_eq!(forward.effective_query(), "abc");
}

#[test]
fn refresh_status_and_selection() {
    let mut app = AppState::from_request(request(false));
    app.refresh(vec![]);
    assert_eq!(app.status, "No results");
    app.refresh(vec![entry("a"), entry("b"), entry("c")]);
    assert_eq!(app.status, "3 results");
    app.selected = 2;
    app.refresh(vec![entry("a")]);
    assert_eq!(app.selected, 0);
    assert_eq!(app.status, "1 results");
}

#[test]
fn selection_wraps_both_ways() {
    let mut app = AppState::from_request(request(false));
    app.refresh(vec![entry("a"), entry("b"), entry("c")]);
    app.select_prev();
    assert_eq!(app.selected, 2);
    app.select_next();
    assert_eq!(app.selected, 0);
    app.select_next();
    app.select_prev();
    assert_eq!(app.selected, 0);
}

#[test]
fn moving_without_results_stays_at_zero() {
    let mut app = AppState::from_request(request(false));
    app.select_next();
    app.select_prev();
    assert_eq!(app.selected, 0);
}

#[test]
fn submit_takes_selected_command() {
    let mut app = AppState::from_request(request(false));
    app.refresh(vec![entry("a"), entry("b")]);
    app.select_next();
    app.submit_selected(true);
    assert!(app.should_exit);
    assert!(app.execute_selected);
    assert_eq!(app.selected_command.as_deref(), Some("b"));
}

#[test]
fn submit_without_results_only_exits() {
    let mut app = AppState::from_request(request(false));
    app.submit_selected(false);
    assert!(app.should_exit);
    assert_eq!(app.selected_command, None);
}

#[test]
fn keys_edit_the_query() {
    let mut app = AppState::from_request(request(false));
    assert!(app.handle_key(Key::Char('d')));
    assert_eq!(app.query, "abcd");
    assert!(app.handle_key(Key::Backspace));
    assert!(app.handle_key(Key::Backspace));
    assert_eq!(app.query, "ab");
    assert!(app.handle_key(Key::CtrlU));
    assert_eq!(app.query, "");
    assert!(app.handle_key(Key::Backspace));
    assert_eq!(app.query, "");
    assert!(!app.handle_key(Key::Other));
    assert!(!app.should_exit);
}

#[test]
fn typed_character_leads_the_reversed_query() {
    let mut app = AppState::from_request(request(true));
    app.handle_key(Key::Char('z'));
    assert_eq!(app.effective_query(), "zcba");
}

#[test]
fn keys_move_submit_and_exit() {
    let mut app = AppState::from_request(request(false));
    app.refresh(vec![entry("a"), entry("b")]);
    assert!(!app.handle_key(Key::Down));
    assert_eq!(app.selected, 1);
    assert!(!app.handle_key(Key::Up));
    assert_eq!(app.selected, 0);
    assert!(!app.handle_key(Key::Tab));
    assert!(app.should_exit);
    assert!(!app.execute_selected);
    assert_eq!(app.selected_command.as_deref(), Some("a"));
    let mut quit = AppState::from_request(request(false));
    quit.handle_key(Key::Esc);
    assert!(quit.should_exit);
    let mut quit2 = AppState::from_request(request(false));
    quit2.handle_key(Key::CtrlC);
    assert!(quit2.should_exit && quit2.selected_command.is_none());
}

#[test]
fn moving_without_results_keeps_any_selection() {
    let mut app = AppState::from_request(request(false));
    app.selected = usize::MAX;
    app.select_next();
    assert_eq!(app.selected, usize::MAX);
    app.handle_key(Key::Down);
    app.select_prev();
    assert_eq!(app.selected, usize::MAX);
}

#[test]
fn footer_names_status_mode_and_keys() {
    let reverse = AppState::from_request(request(true));
    assert_eq!(
        reverse.footer_text(),
        format!("{} | mode: reverse | Enter/Tab: submit  Esc/Ctrl-C: quit  \u{2191}/\u{2193}: navigate  Typing: search", reverse.status)
    );
    let forward = AppState::from_request(request(false));
    assert!(forward.footer_text().contains(" | mode: forward | "));
}

#[test]
fn highlighted_characters_are_the_matched_ones() {
    assert_eq!(highlight_flags(&vec![0, 2], 4), vec![true, false, true, false]);
    assert_eq!(highlight_flags(&vec![], 2), vec![false, false]);
    assert_eq!(highlight_flags(&vec![5], 3), vec![false, false, false]);
    assert!(highlight_flags(&vec![1], 0).is_empty());
}
