use rise_code::init::walker::{config_dirs, first_existing, lines_to_append, shell_configs};
use rise_code::init::{install_paths, launcher, responder};

#[test]
fn launcher_names_the_program() {
    let s = launcher::startup();
    assert!(s.contains("program=rise_code"));
    assert!(s.contains("/tmp/rise_code.stdout 2> /tmp/rise_code.stderr"));
    assert!(!s.contains("{name}"));
    assert!(s.starts_with("#!/bin/sh\n"));
}

#[test]
fn responder_senders() {
    let mac = responder::startup(true);
    let other = responder::startup(false);
    assert_eq!(mac.matches("nc -U /tmp/dev_rpc").count(), 2);
    assert_eq!(other.matches("socat - UNIX-CONNECT:/tmp/dev_rpc").count(), 2);
    assert!(!other.contains("nc -U"));
}

#[test]
fn paths_under_home() {
    let (d, l, r) = install_paths("/home/u");
    assert_eq!(d, "/home/u/.cargo/rise_code");
    assert_eq!(l, "/home/u/.cargo/rise_code/launcher.sh");
    assert_eq!(r, "/home/u/.cargo/rise_code/responder.sh");
}

#[test]
fn directories_searched() {
    assert_eq!(config_dirs("", "/h"), vec!["/h/.config", "/h"]);
    assert_eq!(config_dirs("/etc/xdg", "/h"), vec!["/etc/xdg", "/h/.config", "/h"]);
}

#[test]
fn shell_files() {
    assert_eq!(shell_configs("/bin/bash"), vec![".bashrc", "bash/bashrc"]);
    assert_eq!(shell_configs("/usr/bin/zsh"), vec![".zshrc", "zsh/zshrc"]);
    assert_eq!(shell_configs("fish"), vec!["fish/config.fish", ""]);
    assert_eq!(shell_configs("/bin/sh"), vec!["", ""]);
    assert_eq!(shell_configs(""), vec!["", ""]);
}

#[test]
fn only_missing_lines_are_appended() {
    let lines = vec!["a".to_string(), "bb".to_string(), "c".to_string()];
    assert_eq!(lines_to_append(&lines, "x bb y"), Some("a\nc".to_string()));
    assert_eq!(lines_to_append(&lines, "a bb c"), None);
    assert_eq!(lines_to_append(&lines, ""), Some("a\nbb\nc".to_string()));
}

#[test]
fn first_existing_searches_directory_by_directory() {
    let e = vec![vec![false, false], vec![false, true], vec![true, true]];
    assert_eq!(first_existing(&e), Some((1, 1)));
    assert_eq!(first_existing(&vec![vec![false], vec![]]), None);
    assert_eq!(first_existing(&vec![]), None);
    assert_eq!(first_existing(&vec![vec![true, true]]), Some((0, 0)));
}
