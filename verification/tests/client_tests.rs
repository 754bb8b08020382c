use rise_code::client::fetch::extension_of;
use rise_code::client::load::LINE_LIMIT;
use rise_code::client::run::{RunAction, RunEvent, RunPhase, RunState};
use rise_code::events::REvents;
use rise_code::interface::code::Code;
use rise_code::interface::languages::{Language, LanguageExt};
use rise_code::traits::RiseFormat;

fn pane_with(status: &str) -> String {
    let mut lines = vec!["text"; 8];
    lines[2] = "";
    lines[5] = status;
    lines.join("\n")
}

#[test]
fn extensions() {
    assert_eq!(extension_of("src/main.rs"), "rs");
    assert_eq!(extension_of("a.tar.gz"), "gz");
    assert_eq!(extension_of("Makefile"), "");
    assert_eq!(extension_of("dir.d/file"), "d/file");
}

#[test]
fn refresh_reads_file_and_language() {
    let mut c = Code::default();
    assert!(c.refresh_from_pane(pane_with(" NOR src/main.rs 1:1")));
    assert_eq!(c.file, "src/main.rs");
    assert_eq!(c.language.name, Language::Rust);
    assert!(c.refresh_from_pane(pane_with(" NOR Makefile 1:1")));
    assert_eq!(c.file, "Makefile");
    assert_eq!(c.language.name, Language::Rust);
    assert!(c.refresh_from_pane(String::new()));
    assert_eq!(c.file, "");
    assert_eq!(c.language.name, Language::Rust);
    assert!(!c.refresh_from_pane("short".to_string()));
}

#[test]
fn presence_of_a_session() {
    let mut l = LanguageExt::default();
    l.push("rust");
    let c = Code::new("dev", l, "main.rs", "https://github.com/me/x", true, false, 9);
    let p = c.presence();
    assert_eq!(p.state, "#Tmux: dev");
    assert_eq!(p.details, "Editing: main.rs");
    assert_eq!(p.large_image, "rust-logo");
    assert_eq!(p.large_text, "Programming Language: rust");
    assert_eq!(p.small_image, "helix-logo-nice");
    assert_eq!(p.small_text, "Helix Editor opened in Tmux: dev");
    assert_eq!(p.start, 9);
    assert_eq!(
        p.button,
        Some(("View Git Repo".to_string(), "https://github.com/me/x".to_string()))
    );
}

#[test]
fn presence_without_repo_or_file() {
    let long = "s".repeat(200);
    let c = Code::new(&long, LanguageExt::default(), "", " https://github.com/ ", true, false, 0);
    let p = c.presence();
    assert_eq!(p.details, "Coding: unknown");
    assert_eq!(p.large_image, "wild-card");
    assert_eq!(p.state.chars().count(), LINE_LIMIT);
    assert!(p.button.is_none());
    assert_eq!("héllo".truncate(2), "hé");
    assert_eq!("hi".to_string().truncate(5), "hi");
}

fn events(notes: &[rise_code::client::run::Note]) -> Vec<REvents> {
    notes.iter().map(|n| n.event).collect()
}

#[test]
fn run_loop_shows_and_closes_a_session() {
    let (mut s, first) = RunState::initial();
    assert_eq!(events(&first.notes), vec![REvents::FetchClientId]);
    assert!(matches!(first.action, RunAction::Poll));
    let st = s.step(RunEvent::Empty);
    assert!(matches!(st.action, RunAction::SleepThenPoll(3)));
    let mut attached = Code::new("dev", LanguageExt::default(), "", "", true, false, 1);
    attached.language.push("go");
    let st = s.step(RunEvent::Received(attached));
    assert!(matches!(st.action, RunAction::CheckDiscord));
    assert_eq!(events(&st.notes), vec![REvents::CheckDiscordStatus]);
    let st = s.step(RunEvent::DiscordStatus(true));
    assert!(matches!(st.action, RunAction::Connect));
    let st = s.step(RunEvent::Connected);
    assert_eq!(st.notes[1].value.as_deref(), Some("dev entered"));
    assert_eq!(st.notes[2].value.as_deref(), Some("go"));
    match st.action {
        RunAction::ListWindows { session, pause_ms } => {
            assert_eq!(session, "dev");
            assert_eq!(pause_ms, 5300);
        }
        _ => panic!("expected a window listing"),
    }
    let st = s.step(RunEvent::Windows("0 zsh\n1 hx\n".to_string()));
    match st.action {
        RunAction::CapturePane(t) => assert_eq!(t, "dev:1"),
        _ => panic!("expected a capture"),
    }
    assert_eq!(s.window, "1");
    let st = s.step(RunEvent::PaneContent(pane_with(" NOR src/app.ts 1:1")));
    match st.action {
        RunAction::Load(p) => {
            assert_eq!(p.details, "Editing: src/app.ts");
            assert_eq!(p.large_image, "typescript-logo");
        }
        _ => panic!("expected a load"),
    }
    assert_eq!(s.code.file, "src/app.ts");
    let st = s.step(RunEvent::Shown(true));
    assert!(matches!(st.action, RunAction::Poll));
    assert_eq!(s.phase, RunPhase::PollingUpdate);
    let st = s.step(RunEvent::Empty);
    assert!(matches!(st.action, RunAction::ListWindows { .. }));
    let st = s.step(RunEvent::Windows(String::new()));
    match st.action {
        RunAction::Load(p) => assert_eq!(p.details, "Coding: typescript"),
        _ => panic!("expected a load"),
    }
    assert_eq!(s.code.file, "");
    s.step(RunEvent::Shown(true));
    let mut gone = Code::detach_new(true);
    gone.tmux_session = "dev".to_string();
    let st = s.step(RunEvent::Received(gone));
    assert!(matches!(st.action, RunAction::ClearActivity));
    let st = s.step(RunEvent::Cleared);
    assert_eq!(events(&st.notes), vec![REvents::IpcClearActivity]);
    let st = s.step(RunEvent::Closed);
    assert!(matches!(st.action, RunAction::Poll));
    assert_eq!(st.notes[1].value.as_deref(), Some("dev exited"));
    assert_eq!(s.phase, RunPhase::Polling);
}

#[test]
fn run_loop_failures() {
    let (mut s, _) = RunState::initial();
    assert!(matches!(s.step(RunEvent::Disconnected).action, RunAction::SleepThenPoll(4)));
    s.step(RunEvent::Received(Code::new("d", LanguageExt::default(), "", "", true, false, 0)));
    let st = s.step(RunEvent::DiscordStatus(false));
    assert!(matches!(st.action, RunAction::SleepThenPoll(4)));
    assert!(st.notes[0].error);
    let st = s.step(RunEvent::Empty);
    assert!(matches!(st.action, RunAction::CheckDiscord));
    s.step(RunEvent::DiscordStatus(true));
    let st = s.step(RunEvent::ConnectFailed("no".to_string()));
    assert!(matches!(st.action, RunAction::SleepThenPoll(5)));
    assert_eq!(st.notes[0].event, REvents::IpcConnectionError);
    assert_eq!(s.phase, RunPhase::Polling);
    let st = s.step(RunEvent::Cleared);
    assert!(matches!(st.action, RunAction::Poll));
    assert!(st.notes.is_empty());
    s.step(RunEvent::Empty);
    s.step(RunEvent::DiscordStatus(true));
    s.step(RunEvent::Connected);
    let st = s.step(RunEvent::Closed);
    assert!(matches!(st.action, RunAction::ListWindows { .. }));
    s.step(RunEvent::Windows("3 hx".to_string()));
    let st = s.step(RunEvent::Shown(true));
    match st.action {
        RunAction::CapturePane(t) => assert_eq!(t, "d:3"),
        _ => panic!("expected the capture again"),
    }
    let st = s.step(RunEvent::PaneContent("short".to_string()));
    assert!(matches!(st.action, RunAction::Load(_)));
    let st = s.step(RunEvent::Shown(false));
    assert_eq!(events(&st.notes), vec![REvents::DiscordUnexpextedExit]);
    assert_eq!(s.phase, RunPhase::Polling);
}
