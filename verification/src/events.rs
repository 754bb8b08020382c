//! The events the daemon reports, and the message each one prints.

use vstd::prelude::*;

verus! {

/// The message of an event, ready to be written out.
pub struct REventData {
    msg: String,
}

impl View for REventData {
    type V = Seq<char>;

    closed spec fn view(&self) -> Seq<char> {
        self.msg@
    }
}

impl REventData {
    fn new(msg: String) -> (res: Self)
        ensures
            res@ == msg@,
    {
        Self { msg }
    }

    /// The message text.
    pub fn msg(&self) -> (res: &str)
        ensures
            res@ == self@,
    {
        self.msg.as_str()
    }
}

/// The events of the daemon's life: listening, attaching, detaching and
/// talking to Discord.
#[derive(Debug, Clone, Copy, PartialEq, Eq, Structural)]
pub enum REvents {
    Startlog,
    SocketEstablished,
    ListeningAttach,
    UnixStreamRecieved,
    AttachReceived,
    AttachAcknowledged,
    AttachDropped,
    FetchClientId,
    CheckDiscordStatus,
    DiscordOpen,
    DiscordClosed,
    ConnectingIpcClient,
    IpcConnectionSuccess,
    IpcConnectionError,
    DiscordUnexpextedExit,
    ListeningDetach,
    DetachRecieved,
    DetachAcknowledged,
    DetachDropped,
    IpcClearActivity,
    IpcCloseClient,
    SessionStatus,
    SessionLanguage,
}

/// The text an optional value contributes to a message: the value, or
/// nothing.
pub open spec fn value_text(val: Option<String>) -> Seq<char> {
    match val {
        Some(s) => s@,
        None => Seq::empty(),
    }
}

/// The message of event `e` carrying the text `v`.
pub open spec fn spec_message(e: REvents, v: Seq<char>) -> Seq<char> {
    match e {
        REvents::Startlog => "Start log "@ + v + "..."@,
        REvents::SocketEstablished => "UnixSocket "@ + v + " validated"@,
        REvents::ListeningAttach => "Listening for attach requests..."@,
        REvents::UnixStreamRecieved => "Stream recieved successfully..."@,
        REvents::AttachReceived => "Attach request recieved..."@,
        REvents::AttachAcknowledged => "Attach request acknowledged..."@,
        REvents::AttachDropped => "Attach request invalid... Dropped request: "@ + v,
        REvents::FetchClientId => "Successfully fetched client_id"@,
        REvents::CheckDiscordStatus => "Checking discord status..."@,
        REvents::DiscordOpen => "Discord open... [OK]"@,
        REvents::DiscordClosed => "Discord closed... Retrying..."@,
        REvents::ConnectingIpcClient => "Connecting to discord ipc client..."@,
        REvents::IpcConnectionSuccess => "Ipc client connected successfully..."@,
        REvents::IpcConnectionError => "Ipc client failed to connect: "@ + v + " Retrying..."@,
        REvents::DiscordUnexpextedExit => "Discord exited unexpectedly..."@,
        REvents::ListeningDetach => "Listening for detach requests..."@,
        REvents::DetachRecieved => "Detach request received..."@,
        REvents::DetachAcknowledged => "Detach request acknowldged..."@,
        REvents::DetachDropped => "Detach request invalid... Dropped request: "@ + v,
        REvents::IpcClearActivity => "Clear rich presence activity"@,
        REvents::IpcCloseClient => "Close Ipc client..."@,
        REvents::SessionStatus => "Session "@ + v,
        REvents::SessionLanguage => "Coding in "@ + v,
    }
}

impl REvents {
    /// The message of this event, with `val` (or nothing) filled in.
    pub fn data(&self, val: Option<String>) -> (res: REventData)
        ensures
            res@ == spec_message(*self, value_text(val)),
    {
        let v: String = match val {
            Some(s) => s,
            None => String::new(),
        };
        let mut msg = match self {
            REvents::Startlog => String::from_str("Start log "),
            REvents::SocketEstablished => String::from_str("UnixSocket "),
            REvents::ListeningAttach => String::from_str("Listening for attach requests..."),
            REvents::UnixStreamRecieved => String::from_str("Stream recieved successfully..."),
            REvents::AttachReceived => String::from_str("Attach request recieved..."),
            REvents::AttachAcknowledged => String::from_str("Attach request acknowledged..."),
            REvents::AttachDropped => String::from_str("Attach request invalid... Dropped request: "),
            REvents::FetchClientId => String::from_str("Successfully fetched client_id"),
            REvents::CheckDiscordStatus => String::from_str("Checking discord status..."),
            REvents::DiscordOpen => String::from_str("Discord open... [OK]"),
            REvents::DiscordClosed => String::from_str("Discord closed... Retrying..."),
            REvents::ConnectingIpcClient => String::from_str("Connecting to discord ipc client..."),
            REvents::IpcConnectionSuccess => String::from_str("Ipc client connected successfully..."),
            REvents::IpcConnectionError => String::from_str("Ipc client failed to connect: "),
            REvents::DiscordUnexpextedExit => String::from_str("Discord exited unexpectedly..."),
            REvents::ListeningDetach => String::from_str("Listening for detach requests..."),
            REvents::DetachRecieved => String::from_str("Detach request received..."),
            REvents::DetachAcknowledged => String::from_str("Detach request acknowldged..."),
            REvents::DetachDropped => String::from_str("Detach request invalid... Dropped request: "),
            REvents::IpcClearActivity => String::from_str("Clear rich presence activity"),
            REvents::IpcCloseClient => String::from_str("Close Ipc client..."),
            REvents::SessionStatus => String::from_str("Session "),
            REvents::SessionLanguage => String::from_str("Coding in "),
        };
        match self {
            REvents::Startlog | REvents::SocketEstablished | REvents::AttachDropped | REvents::IpcConnectionError | REvents::DetachDropped | REvents::SessionStatus | REvents::SessionLanguage => {
                msg.append(v.as_str());
            },
            _ => {},
        }
        match self {
            REvents::Startlog => {
                msg.append("...");
            },
            REvents::SocketEstablished => {
                msg.append(" validated");
            },
            REvents::IpcConnectionError => {
                msg.append(" Retrying...");
            },
            _ => {},
        }
        REventData::new(msg)
    }
}

} // verus!
