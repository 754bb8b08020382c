use rise_code::interface::code::Code;
use rise_code::interface::languages::{Language, LanguageExt};
use rise_code::traits::TimeKeeper;

fn at(duration: i64) -> Code {
    Code::new("dev", LanguageExt::default(), "", "", false, true, duration)
}

#[test]
fn default_is_a_detached_blank_session() {
    let c = Code::default();
    assert_eq!(c.tmux_session, "");
    assert_eq!(c.file, "");
    assert_eq!(c.github, "");
    assert!(!c.attach_status);
    assert!(c.detach_status);
    assert_eq!(c.duration, 0);
    assert_eq!(c.language.name, Language::Unknown);
    let d = Code::detach_new(false);
    assert!(!d.detach_status);
    assert!(!d.attach_status);
}

#[test]
fn check_integ_needs_a_session_name() {
    assert!(!Code::default().check_integ());
    assert!(at(0).check_integ());
}

#[test]
fn new_keeps_its_arguments() {
    let c = Code::new("s", LanguageExt::default(), "f.rs", "https://x", true, false, 1700000000);
    assert_eq!(c.tmux_session, "s");
    assert_eq!(c.file, "f.rs");
    assert_eq!(c.github, "https://x");
    assert!(c.attach_status && !c.detach_status);
    assert_eq!(c.duration, 1700000000);
}

#[test]
fn disconnect_turns_start_into_duration() {
    let mut c = Code::new("dev", LanguageExt::default(), "a", "b", true, false, 1000);
    c.disconnect(1125);
    assert!(!c.attach_status);
    assert!(c.detach_status);
    assert_eq!(c.duration, 125);
    assert_eq!(c.tmux_session, "dev");
    let mut d = at(i64::MIN);
    d.disconnect(1);
    assert_eq!(d.duration, 1i64.wrapping_sub(i64::MIN));
}

#[test]
fn setters_and_update() {
    let mut c = Code::default();
    c.file("main.rs");
    assert_eq!(c.file, "main.rs");
    let mut l = LanguageExt::default();
    l.push("rust");
    c.language(l);
    assert_eq!(c.language.name, Language::Rust);
    let src = Code::new("w", LanguageExt::default(), "x.go", "g", true, false, 7);
    c.update(&src);
    assert_eq!(c.tmux_session, "w");
    assert_eq!(c.file, "x.go");
    assert_eq!(c.github, "g");
    assert!(c.attach_status && !c.detach_status);
    assert_eq!(c.duration, 7);
    assert_eq!(c.language.name, Language::Unknown);
    let k = c.clone();
    assert_eq!(k.tmux_session, "w");
    assert_eq!(k.duration, 7);
}

#[test]
fn elapsed_formats() {
    assert_eq!(at(0).elapsed(), "Coded for 0 secs");
    assert_eq!(at(45).elapsed(), "Coded for 45 secs");
    assert_eq!(at(60).elapsed(), "Coded for 1:00");
    assert_eq!(at(125).elapsed(), "Coded for 2:05");
    assert_eq!(at(3599).elapsed(), "Coded for 59:59");
    assert_eq!(at(3600).elapsed(), "Coded for 1:00:00");
    assert_eq!(at(3725).elapsed(), "Coded for 1:02:05");
    assert_eq!(at(360000).elapsed(), "Coded for 100:00:00");
}

#[test]
fn elapsed_of_negative_durations_matches_rust_formatting() {
    for d in [-1i64, -5, -59, -61, -3599, -3725, -7_200_001, i64::MIN] {
        let expected = format!(
            "Coded for {hrs}:{mins:02}:{secs:02}",
            hrs = d / 3600,
            mins = (d % 3600) / 60,
            secs = d % 60
        );
        assert_eq!(at(d).elapsed(), expected);
    }
}
