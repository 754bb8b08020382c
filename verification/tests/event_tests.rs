use rise_code::events::REvents;

#[test]
fn messages_without_value() {
    assert_eq!(REvents::ListeningAttach.data(None).msg(), "Listening for attach requests...");
    assert_eq!(REvents::DiscordOpen.data(None).msg(), "Discord open... [OK]");
    assert_eq!(REvents::DetachAcknowledged.data(None).msg(), "Detach request acknowldged...");
    assert_eq!(REvents::IpcClearActivity.data(Some("x".to_string())).msg(), "Clear rich presence activity");
}

#[test]
fn messages_with_value() {
    assert_eq!(REvents::Startlog.data(Some("now".to_string())).msg(), "Start log now...");
    assert_eq!(
        REvents::SocketEstablished.data(Some("/tmp/dev_rpc".to_string())).msg(),
        "UnixSocket /tmp/dev_rpc validated"
    );
    assert_eq!(
        REvents::IpcConnectionError.data(Some("boom".to_string())).msg(),
        "Ipc client failed to connect: boom Retrying..."
    );
    assert_eq!(REvents::SessionStatus.data(Some("dev entered".to_string())).msg(), "Session dev entered");
    assert_eq!(REvents::SessionLanguage.data(Some("rust".to_string())).msg(), "Coding in rust");
}

#[test]
fn missing_value_is_empty() {
    assert_eq!(REvents::SessionStatus.data(None).msg(), "Session ");
    assert_eq!(
        REvents::AttachDropped.data(None).msg(),
        "Attach request invalid... Dropped request: "
    );
}
