use rise_code::interface::code::Code;
use rise_code::interface::languages::Language;
use rise_code::listener::attach::{missing_field_warnings, parse_payload};
use rise_code::listener::detach;
use rise_code::listener::{handle_request, ListenerAction};

#[test]
fn attach_payload_fields() {
    let c = parse_payload(" dev:rust:main.rs:me/repo.git\n", 42);
    assert_eq!(c.tmux_session, "dev");
    assert_eq!(c.language.name, Language::Rust);
    assert_eq!(c.file, "main.rs");
    assert_eq!(c.github, "https://github.com/me/repo.git");
    assert!(c.attach_status && !c.detach_status);
    assert_eq!(c.duration, 42);
}

#[test]
fn attach_payload_missing_fields() {
    let c = parse_payload("solo", 1);
    assert_eq!(c.tmux_session, "solo");
    assert_eq!(c.language.name, Language::Unknown);
    assert_eq!(c.file, "");
    assert_eq!(c.github, "https://");
    let d = parse_payload("a:go", 5);
    assert_eq!(d.language.name, Language::Go);
    assert_eq!(d.github, "https://");
    assert_eq!(d.duration, 5);
}

#[test]
fn detach_payload_is_trimmed() {
    assert_eq!(detach::parse_payload("  dev \n"), "dev");
}

#[test]
fn attach_then_detach() {
    let mut s = Code::default();
    assert_eq!(handle_request(&mut s, "dev:go:x.go:u/r\n", 100), ListenerAction::Attached);
    assert!(s.attach_status);
    assert_eq!(s.tmux_session, "dev");
    assert_eq!(handle_request(&mut s, "other\n", 150), ListenerAction::DetachDropped);
    assert!(s.attach_status);
    assert_eq!(s.duration, 100);
    assert_eq!(handle_request(&mut s, " dev\n", 160), ListenerAction::Detached);
    assert!(!s.attach_status && s.detach_status);
    assert_eq!(s.duration, 60);
    assert_eq!(s.tmux_session, "dev");
    assert_eq!(s.file, "x.go");
}

#[test]
fn warnings_for_missing_fields() {
    assert!(missing_field_warnings("dev:rust:main.rs:me/r").is_empty());
    assert_eq!(
        missing_field_warnings("dev:rust"),
        vec!["file name returned none", "repo name returned none"]
    );
    assert_eq!(
        missing_field_warnings(""),
        vec!["language returned none", "file name returned none", "repo name returned none"]
    );
}
