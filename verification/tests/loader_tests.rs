use rise_code::loader::helpers::{
    awk_field, pick_file_name, file_pattern_compiles, get_filenames, log_path, log_too_large, FILE_PATTERN,
};
use rise_code::loader::parser::{has_pane_shape, pane_target, parse_pane, window_id_from_listing};
use rise_code::traits::RegexMatcher;

#[test]
fn file_pattern_compiles_and_matches_paths() {
    assert!(file_pattern_compiles());
    assert!("src/main.rs".to_string().regex(FILE_PATTERN));
    assert!(!"[+]".to_string().regex(FILE_PATTERN));
    assert!("lib.rs".to_string().regex(FILE_PATTERN));
    assert!("1:1".to_string().regex(FILE_PATTERN));
    assert!(!"1:".to_string().regex(FILE_PATTERN));
}

#[test]
fn awk_field_by_number() {
    assert_eq!(awk_field("a b c", 2), "b");
    assert_eq!(awk_field("a b c", 0), " ");
    assert_eq!(awk_field("a b c", 4), " ");
}

#[test]
fn file_after_mode_label() {
    assert_eq!(get_filenames(" NOR   src/main.rs [+]   1 sel  1:1 ".to_string()), "src/main.rs");
    assert_eq!(get_filenames(" INS   a/b/c.py  NOR x.rs".to_string()), "a/b/c.py");
}

#[test]
fn file_second_word_or_nothing() {
    assert_eq!(get_filenames(" NOR [+] notes.md 1:1".to_string()), "notes.md");
    assert_eq!(get_filenames(" NOR [+] 1:1 ".to_string()), "1:1");
    assert_eq!(get_filenames(" NOR [+] (x) 1:1".to_string()), "");
    assert_eq!(get_filenames("Makefile rest".to_string()), "Makefile");
}

#[test]
fn pane_status_lines() {
    let mut lines = vec!["code"; 8];
    lines[2] = "~";
    lines[5] = " NOR   src/lib.rs   1 sel  1:1";
    let pane = lines.join("\n");
    assert!(has_pane_shape(&pane));
    assert_eq!(parse_pane(pane), "src/lib.rs");
    assert!(!has_pane_shape("a\nb\nc"));
}

#[test]
fn window_listing() {
    assert_eq!(window_id_from_listing("0 zsh\n1 hx\n2 hx-again"), "1");
    assert_eq!(window_id_from_listing("0 zsh\n3 vim"), "");
    assert_eq!(window_id_from_listing(""), "");
    assert_eq!(pane_target("dev", "1"), "dev:1");
}

#[test]
fn log_file_place_and_size() {
    assert_eq!(log_path("/home/u", ".cache/rise_code.log"), "/home/u/.cache/rise_code.log");
    assert!(!log_too_large(20 * 1024 * 1024));
    assert!(log_too_large(20 * 1024 * 1024 + 1));
}

#[test]
fn picking_between_candidates() {
    let a = || "a.rs".to_string();
    let b = || "b.rs".to_string();
    assert_eq!(pick_file_name(a(), b(), true, None), "a.rs");
    assert_eq!(pick_file_name(a(), b(), true, Some(true)), "a.rs");
    assert_eq!(pick_file_name(a(), b(), false, Some(true)), "b.rs");
    assert_eq!(pick_file_name(a(), b(), false, Some(false)), "");
    assert_eq!(pick_file_name(a(), b(), false, None), "");
}
