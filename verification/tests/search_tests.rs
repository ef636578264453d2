use ratuin::search::{fuzzy_match_indices, is_fuzzy_subsequence};

#[test]
fn readme_example_cgo_matches_cargo() {
    assert!(is_fuzzy_subsequence("cgo", "cargo"));
}

#[test]
fn order_of_query_characters_matters() {
    assert!(!is_fuzzy_subsequence("ogc", "cargo"));
    assert!(!is_fuzzy_subsequence("cargo", "cgo"));
}

#[test]
fn blank_query_matches_everything() {
    assert!(is_fuzzy_subsequence("", "anything"));
    assert!(is_fuzzy_subsequence("   \t", ""));
    assert!(is_fuzzy_subsequence("\u{3000}", "x"));
}

#[test]
fn query_is_trimmed() {
    assert!(is_fuzzy_subsequence("  cgo  ", "cargo"));
    assert!(!is_fuzzy_subsequence("c go", "cargo"));
}

#[test]
fn ascii_case_is_ignored_both_ways() {
    assert!(is_fuzzy_subsequence("CGO", "cargo"));
    assert!(is_fuzzy_subsequence("cgo", "CARGO"));
    assert!(is_fuzzy_subsequence("GiT", "git status"));
}

#[test]
fn non_ascii_case_is_not_folded() {
    assert!(!is_fuzzy_subsequence("É", "école"));
    assert!(is_fuzzy_subsequence("é", "école"));
}

#[test]
fn query_longer_than_target_fails() {
    assert!(!is_fuzzy_subsequence("ls -la", "ls"));
}

#[test]
fn repeated_characters_need_distinct_positions() {
    assert!(is_fuzzy_subsequence("oo", "foo"));
    assert!(!is_fuzzy_subsequence("ooo", "foo"));
}

#[test]
fn substring_always_matches() {
    assert!(is_fuzzy_subsequence("check", "cargo check --all"));
}

#[test]
fn match_survives_extension_example() {
    assert!(is_fuzzy_subsequence("cgo", "cargo"));
    assert!(is_fuzzy_subsequence("cgo", "sudo cargo build"));
}

#[test]
fn match_indices_are_earliest_positions() {
    assert_eq!(fuzzy_match_indices("cgo", "cargo"), Some(vec![0, 3, 4]));
    assert_eq!(fuzzy_match_indices("CG", "a cog go"), Some(vec![2, 4]));
}

#[test]
fn match_indices_count_characters_not_bytes() {
    assert_eq!(fuzzy_match_indices("x", "éx"), Some(vec![1]));
}

#[test]
fn match_indices_none_without_match() {
    assert_eq!(fuzzy_match_indices("zz", "cargo"), None);
}

#[test]
fn match_indices_empty_for_blank_query() {
    assert_eq!(fuzzy_match_indices("  ", "cargo"), Some(vec![]));
}
