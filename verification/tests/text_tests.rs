use rise_code::text::{
    chars_of, contains_str, ends_with_str, replace_str, split_char, split_whitespace, str_eq,
    trim_str,
};

#[test]
fn words_split_on_any_whitespace() {
    let ws = split_whitespace("  NOR\tsrc/main.rs \u{3000} 1:1\n");
    assert_eq!(ws, vec!["NOR", "src/main.rs", "1:1"]);
}

#[test]
fn words_of_blank_text_are_none() {
    assert!(split_whitespace("").is_empty());
    assert!(split_whitespace(" \t\r\n ").is_empty());
}

#[test]
fn split_keeps_empty_pieces() {
    assert_eq!(split_char("a::b:", ':'), vec!["a", "", "b", ""]);
    assert_eq!(split_char("", ':'), vec![""]);
}

#[test]
fn trim_removes_both_ends() {
    assert_eq!(trim_str("  dev:rust \n"), "dev:rust");
    assert_eq!(trim_str(" \t "), "");
    assert_eq!(trim_str("x"), "x");
}

#[test]
fn contains_and_ends_with() {
    assert!(contains_str("1 hx", "hx"));
    assert!(!contains_str("1 zsh", "hx"));
    assert!(contains_str("abc", ""));
    assert!(ends_with_str("https://github.com/", ".com/"));
    assert!(!ends_with_str("https://github.com/a/b", ".com/"));
    assert!(!ends_with_str("om/", ".com/"));
}

#[test]
fn replace_every_occurrence() {
    assert_eq!(replace_str("{name} and {name}", "{name}", "x"), "x and x");
    assert_eq!(replace_str("aaa", "aa", "b"), "ba");
    assert_eq!(replace_str("none", "{name}", "x"), "none");
}

#[test]
fn chars_and_equality() {
    assert_eq!(chars_of("héllo"), vec!['h', 'é', 'l', 'l', 'o']);
    assert!(str_eq("rust", "rust"));
    assert!(!str_eq("rust", "rus"));
}
