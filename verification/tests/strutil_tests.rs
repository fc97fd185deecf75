use mail_triage::strutil::{
    concat2, concat3, join_with, split_commas, split_ws, str_contains, str_eq, str_eq_ci,
    str_has_visible_char, str_leq, str_trim, str_trim_quotes, u64_to_dec,
};

#[test]
fn contains_finds_substrings() {
    assert!(str_contains("hello world", "lo wo"));
    assert!(str_contains("hello", "hello"));
    assert!(str_contains("hello", ""));
    assert!(!str_contains("hello", "world"));
    assert!(!str_contains("", "a"));
    assert!(str_contains("a@example.com", "@example.com"));
}

#[test]
fn split_commas_keeps_pieces_verbatim() {
    let v = split_commas("a@x.com, b@y.com,c@z.com");
    let views: Vec<&str> = v.iter().map(|s| s.as_str()).collect();
    assert_eq!(views, vec!["a@x.com", " b@y.com", "c@z.com"]);
}

#[test]
fn split_commas_of_empty_is_one_empty_piece() {
    let v = split_commas("");
    assert_eq!(v.len(), 1);
    assert_eq!(v[0], "");
}

#[test]
fn split_ws_drops_empty_runs() {
    let v = split_ws("  Attendance   Report ");
    let views: Vec<&str> = v.iter().map(|s| s.as_str()).collect();
    assert_eq!(views, vec!["Attendance", "Report"]);
    assert_eq!(split_ws("").len(), 0);
    assert_eq!(split_ws("   ").len(), 0);
}

#[test]
fn trim_strips_ascii_whitespace() {
    assert_eq!(str_trim("  YES \r\n"), "YES");
    assert_eq!(str_trim(""), "");
    assert_eq!(str_trim(" \t "), "");
    assert_eq!(str_trim("a b"), "a b");
}

#[test]
fn trim_quotes_strips_single_quotes() {
    assert_eq!(str_trim_quotes("'word'"), "word");
    assert_eq!(str_trim_quotes("''x''"), "x");
    assert_eq!(str_trim_quotes("plain"), "plain");
    assert_eq!(str_trim_quotes("''"), "");
}

#[test]
fn case_insensitive_equality() {
    assert!(str_eq_ci("yes", "YES"));
    assert!(str_eq_ci("Is_File_Request", "IS_FILE_REQUEST"));
    assert!(!str_eq_ci("no", "yes"));
    assert!(!str_eq_ci("yess", "yes"));
}

#[test]
fn exact_equality() {
    assert!(str_eq("abc", "abc"));
    assert!(!str_eq("abc", "abd"));
    assert!(!str_eq("abc", "ABC"));
}

#[test]
fn visible_char_detection() {
    assert!(str_has_visible_char(" a "));
    assert!(!str_has_visible_char("   "));
    assert!(!str_has_visible_char(""));
}

#[test]
fn lexicographic_order_on_code_points() {
    assert!(str_leq("abc", "abd"));
    assert!(str_leq("abc", "abc"));
    assert!(str_leq("ab", "abc"));
    assert!(!str_leq("abd", "abc"));
    assert!(!str_leq("b", "a"));
    assert!(str_leq("", "a"));
}

#[test]
fn join_with_separator() {
    let v = vec!["a".to_string(), "b".to_string(), "c".to_string()];
    assert_eq!(join_with(&v, ", "), "a, b, c");
    let one = vec!["x".to_string()];
    assert_eq!(join_with(&one, ", "), "x");
    let none: Vec<String> = Vec::new();
    assert_eq!(join_with(&none, ", "), "");
}

#[test]
fn decimal_rendering() {
    assert_eq!(u64_to_dec(0), "0");
    assert_eq!(u64_to_dec(7), "7");
    assert_eq!(u64_to_dec(42), "42");
    assert_eq!(u64_to_dec(1000), "1000");
    assert_eq!(u64_to_dec(u64::MAX), "18446744073709551615");
}

#[test]
fn concatenation_helpers() {
    assert_eq!(concat2("a", "b"), "ab");
    assert_eq!(concat3("a", "b", "c"), "abc");
}
