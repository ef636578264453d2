use ratuin::number::{decimal_i64, decimal_u64, parse_i64_exec, parse_u64_exec};
use ratuin::text::{
    chars_of, contains_exec, join_path_exec, lower_chars, split_lines, str_eq, string_of,
    trim_chars,
};

fn cs(s: &str) -> Vec<char> {
    s.chars().collect()
}

fn text(v: &[char]) -> String {
    v.iter().collect()
}

#[test]
fn parse_i64_accepts_signs_and_digits() {
    assert_eq!(parse_i64_exec(&cs("42")), Some(42));
    assert_eq!(parse_i64_exec(&cs("+42")), Some(42));
    assert_eq!(parse_i64_exec(&cs("-42")), Some(-42));
    assert_eq!(parse_i64_exec(&cs("007")), Some(7));
    assert_eq!(parse_i64_exec(&cs("-9223372036854775808")), Some(i64::MIN));
    assert_eq!(parse_i64_exec(&cs("9223372036854775807")), Some(i64::MAX));
}

#[test]
fn parse_i64_refuses_what_str_parse_refuses() {
    for s in ["", "+", "-", "1a", " 1", "1 ", "9223372036854775808", "-9223372036854775809", "٣", "--1"] {
        assert_eq!(parse_i64_exec(&cs(s)), None, "{s:?}");
        assert!(s.parse::<i64>().is_err());
    }
}

#[test]
fn parse_u64_matches_str_parse() {
    for s in ["0", "+7", "18446744073709551615", "18446744073709551616", "-1", "+", "", "12x"] {
        assert_eq!(parse_u64_exec(&cs(s)), s.parse::<u64>().ok(), "{s:?}");
    }
}

#[test]
fn decimal_text_of_numbers() {
    assert_eq!(text(&decimal_u64(0)), "0");
    assert_eq!(text(&decimal_u64(1234567890)), "1234567890");
    assert_eq!(text(&decimal_u64(u64::MAX)), u64::MAX.to_string());
    assert_eq!(text(&decimal_i64(-42)), "-42");
    assert_eq!(text(&decimal_i64(i64::MIN)), i64::MIN.to_string());
}

#[test]
fn lines_split_like_str_lines() {
    for s in ["", "a", "a\n", "a\r\nb\n\nc\n", "a\r", "\n", "\r\n", "x\ny\r\nz", "a\n\n"] {
        let got: Vec<String> = split_lines(&cs(s)).iter().map(|l| text(l)).collect();
        let want: Vec<String> = s.lines().map(|l| l.to_string()).collect();
        assert_eq!(got, want, "{s:?}");
    }
}

#[test]
fn trim_removes_unicode_whitespace() {
    for s in ["  a b  ", "\t\n x\r", "\u{3000}x\u{a0}", "", "   ", "\u{85}y\u{2028}"] {
        assert_eq!(text(&trim_chars(&cs(s))), s.trim(), "{s:?}");
    }
}

#[test]
fn lowercase_only_touches_ascii_letters() {
    assert_eq!(text(&lower_chars(&cs("ABC-xyz É"))), "abc-xyz É");
}

#[test]
fn substring_search() {
    assert!(contains_exec(&cs("hello world"), &cs("o w")));
    assert!(contains_exec(&cs("abc"), &cs("")));
    assert!(!contains_exec(&cs("abc"), &cs("abcd")));
    assert!(!contains_exec(&cs("abc"), &cs("ac")));
}

#[test]
fn path_join_like_std() {
    assert_eq!(join_path_exec(b"/home/u", ".bash_history"), b"/home/u/.bash_history".to_vec());
    assert_eq!(join_path_exec(b"/home/u/", ".bash_history"), b"/home/u/.bash_history".to_vec());
    assert_eq!(join_path_exec(b"", "x"), b"x".to_vec());
    assert_eq!(join_path_exec(b"/h\xff\xfe", "x"), b"/h\xff\xfe/x".to_vec());
}

#[test]
fn text_round_trip_and_equality() {
    assert_eq!(string_of(&chars_of("héllo")), "héllo");
    assert!(str_eq("zsh", "zsh"));
    assert!(!str_eq("zsh", "zsh "));
}
