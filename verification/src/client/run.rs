use vstd::prelude::*;
use crate::client::fetch::{can_refresh, extension, pane_refreshed};
use crate::client::load::{shows, Presence, LINE_LIMIT};
use crate::events::REvents;
use crate::interface::code::Code;
use crate::interface::languages::{spec_ext_language, spec_logo, spec_name, Language, LanguageExt};
use crate::loader::parser::{first_hx_window, pane_target, spec_parse_pane, window_id_from_listing};
use crate::text::split;
use crate::traits::truncated;

verus! {

/// The application id the client presents to Discord.
pub const CLIENT_ID: &'static str = "1208484529510154260";

/// How long to pause, in milliseconds, before reading the editor's pane
/// again: a short pause between refreshes and a longer one for tmux.
pub const PANE_PAUSE_MS: u64 = 5300;

/// Where the client loop stands.
#[derive(Debug, Clone, Copy, PartialEq, Eq, Structural)]
pub enum RunPhase {
    /// Waiting for the channel to say whether a session arrived.
    Polling,
    /// Waiting to learn whether Discord runs.
    CheckingDiscord,
    /// Waiting for the connection to Discord.
    Connecting,
    /// Waiting for the listing of the session's tmux windows.
    Listing,
    /// Waiting for the text of the editor's pane.
    Capturing,
    /// Waiting for the activity to be shown.
    Loading,
    /// Connected and shown: waiting for the channel to say whether the
    /// session changed.
    PollingUpdate,
    /// Waiting for the shown activity to be cleared.
    Clearing,
    /// Waiting for the connection to be closed.
    Closing,
}

/// What the outside world answered to the last action.
pub enum RunEvent {
    /// The channel held a session.
    Received(Code),
    /// The channel held nothing new.
    Empty,
    /// The channel has no sender left.
    Disconnected,
    /// Whether Discord runs.
    DiscordStatus(bool),
    /// The connection to Discord was made.
    Connected,
    /// The connection to Discord failed, for the reason given.
    ConnectFailed(String),
    /// The session's tmux window listing (`index name` lines; empty when
    /// it could not be read).
    Windows(String),
    /// The text of the editor's pane.
    PaneContent(String),
    /// Whether Discord still ran and the activity was shown.
    Shown(bool),
    /// The activity was cleared.
    Cleared,
    /// The connection was closed.
    Closed,
}

/// What the outside world is asked to do next.
pub enum RunAction {
    /// Ask the channel for news.
    Poll,
    /// Sleep this many seconds, then ask the channel for news.
    SleepThenPoll(u64),
    /// Find out whether Discord runs.
    CheckDiscord,
    /// Connect to Discord.
    Connect,
    /// Pause this many milliseconds, then list the windows of this tmux
    /// session.
    ListWindows { session: String, pause_ms: u64 },
    /// Capture the text of this tmux pane (`session:window`).
    CapturePane(String),
    /// Show this activity if Discord still runs.
    Load(Presence),
    /// Clear the shown activity.
    ClearActivity,
    /// Close the connection.
    CloseClient,
}

/// An event to report, with its value, and whether it reports an error.
pub struct Note {
    pub event: REvents,
    pub value: Option<String>,
    pub error: bool,
}

/// A note as plain values.
pub open spec fn note_view(n: Note) -> (REvents, Option<Seq<char>>, bool) {
    (
        n.event,
        match n.value {
            Some(s) => Some(s@),
            None => None,
        },
        n.error,
    )
}

/// Notes as plain values.
pub open spec fn notes_view(v: Seq<Note>) -> Seq<(REvents, Option<Seq<char>>, bool)> {
    v.map_values(|n: Note| note_view(n))
}

/// The reports of one step, and the action it asks for.
pub struct Step {
    pub notes: Vec<Note>,
    pub action: RunAction,
}

/// The state of the client loop: where it stands, the session it shows,
/// and the tmux window the editor was last found in.
pub struct RunState {
    pub phase: RunPhase,
    pub code: Code,
    pub window: String,
}

/// `action` lists the windows of the session of `code`, after the pause.
pub open spec fn lists(code: Code, action: RunAction) -> bool {
    action matches RunAction::ListWindows { session, pause_ms } && session@ == code.tmux_session@
        && pause_ms == PANE_PAUSE_MS
}

/// `action` captures window `window` of the session of `code`.
pub open spec fn captures(code: Code, window: Seq<char>, action: RunAction) -> bool {
    action matches RunAction::CapturePane(t) && t@ == code.tmux_session@ + ":"@ + window
}

/// `action` shows the activity of `code`.
pub open spec fn loads(code: Code, action: RunAction) -> bool {
    action matches RunAction::Load(p) && shows(&code, &p)
}

/// Whether `action` is what the phase of `s` waits on, asked for again
/// when an event comes that the phase does not expect.
pub open spec fn pending(s: &RunState, action: RunAction) -> bool {
    match s.phase {
        RunPhase::Polling => action == RunAction::Poll,
        RunPhase::CheckingDiscord => action == RunAction::CheckDiscord,
        RunPhase::Connecting => action == RunAction::Connect,
        RunPhase::Listing => lists(s.code, action),
        RunPhase::Capturing => captures(s.code, s.window@, action),
        RunPhase::Loading => loads(s.code, action),
        RunPhase::PollingUpdate => action == RunAction::Poll,
        RunPhase::Clearing => action == RunAction::ClearActivity,
        RunPhase::Closing => action == RunAction::CloseClient,
    }
}

/// A note without a value.
pub open spec fn plain(e: REvents) -> (REvents, Option<Seq<char>>, bool) {
    (e, None, false)
}

/// The reports made when the connection is up: connected, the session
/// entered, and its most frequent language.
pub open spec fn connected_notes(code: Code, top: Language) -> Seq<
    (REvents, Option<Seq<char>>, bool),
> {
    seq![
        plain(REvents::IpcConnectionSuccess),
        (REvents::SessionStatus, Some(code.tmux_session@ + " entered"@), false),
        (REvents::SessionLanguage, Some(spec_name(top)), false),
    ]
}

/// One step of the client loop: from `before`, on event `ev`, to `after`,
/// reporting `notes` and asking for `action`.
///
/// Polling: a session received replaces the current one and Discord is
/// checked; with nothing new, Discord is checked for an attached session,
/// and otherwise the loop sleeps 3 s; with the channel closed it sleeps
/// 4 s. Discord closed: report it, sleep 4 s. Discord open: connect;
/// failing that, report why and sleep 5 s; once connected, report the
/// session and its most frequent language and refresh it. Refreshing
/// lists the session's windows after a pause; the editor's window is the
/// first that mentions `hx`; its pane is captured and read into the
/// session (without such a window, an empty pane is), and the session's
/// activity is shown. A failed showing reports that Discord went away and
/// polls again. After a showing, a session received replaces the current
/// one; a detached one has its activity cleared and the connection closed,
/// anything else is refreshed again, as is the current session when the
/// channel has nothing new. Any other event leaves the state as it is and
/// asks again for what the phase waits on.
pub open spec fn stepped(
    before: &RunState,
    ev: &RunEvent,
    after: &RunState,
    notes: Seq<(REvents, Option<Seq<char>>, bool)>,
    action: RunAction,
) -> bool {
    let unchanged = after.phase == before.phase && after.code == before.code && after.window
        == before.window && notes.len() == 0 && pending(before, action);
    let stay_code = after.code == before.code;
    match before.phase {
        RunPhase::Polling => match ev {
            RunEvent::Received(c) => after.code == *c && after.phase == RunPhase::CheckingDiscord
                && notes == seq![plain(REvents::CheckDiscordStatus)] && action
                == RunAction::CheckDiscord,
            RunEvent::Empty => stay_code && if before.code.attach_status {
                after.phase == RunPhase::CheckingDiscord && notes == seq![
                    plain(REvents::CheckDiscordStatus),
                ] && action == RunAction::CheckDiscord
            } else {
                after.phase == RunPhase::Polling && notes.len() == 0 && action
                    == RunAction::SleepThenPoll(3)
            },
            RunEvent::Disconnected => stay_code && after.phase == RunPhase::Polling && notes.len()
                == 0 && action == RunAction::SleepThenPoll(4),
            _ => unchanged,
        },
        RunPhase::CheckingDiscord => match ev {
            RunEvent::DiscordStatus(open) => stay_code && if *open {
                after.phase == RunPhase::Connecting && notes == seq![
                    plain(REvents::DiscordOpen),
                    plain(REvents::ConnectingIpcClient),
                ] && action == RunAction::Connect
            } else {
                after.phase == RunPhase::Polling && notes == seq![
                    (REvents::DiscordClosed, None::<Seq<char>>, true),
                ] && action == RunAction::SleepThenPoll(4)
            },
            _ => unchanged,
        },
        RunPhase::Connecting => match ev {
            RunEvent::Connected => stay_code && after.phase == RunPhase::Listing && (exists|
                top: Language,
            |
                LanguageExt::spec_max(before.code.language.tally(), top) && notes
                    == connected_notes(before.code, top)) && lists(after.code, action),
            RunEvent::ConnectFailed(e) => stay_code && after.phase == RunPhase::Polling && notes
                == seq![(REvents::IpcConnectionError, Some(e@), true)] && action
                == RunAction::SleepThenPoll(5),
            _ => unchanged,
        },
        RunPhase::Listing => match ev {
            RunEvent::Windows(listing) => {
                let id = first_hx_window(split(listing@, '\n'));
                &&& after.window@ == id
                &&& notes.len() == 0
                &&& if id.len() == 0 {
                    &&& pane_refreshed(&before.code, Seq::empty(), &after.code)
                    &&& after.phase == RunPhase::Loading
                    &&& loads(after.code, action)
                } else {
                    &&& stay_code
                    &&& after.phase == RunPhase::Capturing
                    &&& captures(after.code, id, action)
                }
            },
            _ => unchanged,
        },
        RunPhase::Capturing => match ev {
            RunEvent::PaneContent(text) => {
                &&& pane_refreshed(&before.code, text@, &after.code)
                &&& after.window == before.window
                &&& after.phase == RunPhase::Loading
                &&& notes.len() == 0
                &&& loads(after.code, action)
            },
            _ => unchanged,
        },
        RunPhase::Loading => match ev {
            RunEvent::Shown(ok) => stay_code && if *ok {
                after.phase == RunPhase::PollingUpdate && notes.len() == 0 && action
                    == RunAction::Poll
            } else {
                after.phase == RunPhase::Polling && notes == seq![
                    plain(REvents::DiscordUnexpextedExit),
                ] && action == RunAction::Poll
            },
            _ => unchanged,
        },
        RunPhase::PollingUpdate => match ev {
            RunEvent::Received(c) => after.code == *c && notes.len() == 0 && if c.detach_status {
                after.phase == RunPhase::Clearing && action == RunAction::ClearActivity
            } else {
                after.phase == RunPhase::Listing && lists(after.code, action)
            },
            RunEvent::Empty | RunEvent::Disconnected => stay_code && after.phase
                == RunPhase::Listing && notes.len() == 0 && lists(after.code, action),
            _ => unchanged,
        },
        RunPhase::Clearing => match ev {
            RunEvent::Cleared => stay_code && after.phase == RunPhase::Closing && notes == seq![
                plain(REvents::IpcClearActivity),
            ] && action == RunAction::CloseClient,
            _ => unchanged,
        },
        RunPhase::Closing => match ev {
            RunEvent::Closed => stay_code && after.phase == RunPhase::Polling && notes == seq![
                plain(REvents::IpcCloseClient),
                (REvents::SessionStatus, Some(before.code.tmux_session@ + " exited"@), false),
            ] && action == RunAction::Poll,
            _ => unchanged,
        },
    }
}

fn note(event: REvents, value: Option<String>, error: bool) -> (res: Note)
    ensures
        res.event == event,
        res.value == value,
        res.error == error,
{
    Note { event, value, error }
}

fn step_of(notes: Vec<Note>, action: RunAction) -> (res: Step)
    ensures
        res.notes == notes,
        res.action == action,
{
    Step { notes, action }
}

fn list_windows(code: &Code) -> (res: RunAction)
    ensures
        lists(*code, res),
{
    RunAction::ListWindows { session: code.tmux_session.clone(), pause_ms: PANE_PAUSE_MS }
}

impl RunState {
    /// The loop before its first step: polling, with a blank session; the
    /// client id is reported as fetched.
    pub fn initial() -> (res: (RunState, Step))
        ensures
            res.0.phase == RunPhase::Polling,
            res.0.code.is_blank(true),
            res.0.window@ == Seq::<char>::empty(),
            notes_view(res.1.notes@) == seq![plain(REvents::FetchClientId)],
            res.1.action == RunAction::Poll,
    {
        let mut notes: Vec<Note> = Vec::new();
        notes.push(note(REvents::FetchClientId, None, false));
        assert(notes_view(notes@) =~= seq![plain(REvents::FetchClientId)]);
        let state = RunState { phase: RunPhase::Polling, code: Code::default(), window: String::new() };
        (state, step_of(notes, RunAction::Poll))
    }

    /// The action the current phase waits on.
    fn redo(&self) -> (res: RunAction)
        ensures
            pending(self, res),
    {
        match self.phase {
            RunPhase::Polling => RunAction::Poll,
            RunPhase::CheckingDiscord => RunAction::CheckDiscord,
            RunPhase::Connecting => RunAction::Connect,
            RunPhase::Listing => list_windows(&self.code),
            RunPhase::Capturing => RunAction::CapturePane(
                pane_target(self.code.tmux_session.as_str(), self.window.as_str()),
            ),
            RunPhase::Loading => RunAction::Load(self.code.presence()),
            RunPhase::PollingUpdate => RunAction::Poll,
            RunPhase::Clearing => RunAction::ClearActivity,
            RunPhase::Closing => RunAction::CloseClient,
        }
    }

    /// Takes one step of the client loop on event `ev` (see `stepped`).
    pub fn step(&mut self, ev: RunEvent) -> (res: Step)
        ensures
            stepped(old(self), &ev, final(self), notes_view(res.notes@), res.action),
    {
        let mut notes: Vec<Note> = Vec::new();
        let action = match (self.phase, ev) {
            (RunPhase::Polling, RunEvent::Received(c)) => {
                self.code = c;
                self.phase = RunPhase::CheckingDiscord;
                notes.push(note(REvents::CheckDiscordStatus, None, false));
                assert(notes_view(notes@) =~= seq![plain(REvents::CheckDiscordStatus)]);
                RunAction::CheckDiscord
            },
            (RunPhase::Polling, RunEvent::Empty) => {
                if self.code.attach_status {
                    self.phase = RunPhase::CheckingDiscord;
                    notes.push(note(REvents::CheckDiscordStatus, None, false));
                    assert(notes_view(notes@) =~= seq![plain(REvents::CheckDiscordStatus)]);
                    RunAction::CheckDiscord
                } else {
                    RunAction::SleepThenPoll(3)
                }
            },
            (RunPhase::Polling, RunEvent::Disconnected) => RunAction::SleepThenPoll(4),
            (RunPhase::CheckingDiscord, RunEvent::DiscordStatus(open)) => {
                if open {
                    self.phase = RunPhase::Connecting;
                    notes.push(note(REvents::DiscordOpen, None, false));
                    notes.push(note(REvents::ConnectingIpcClient, None, false));
                    assert(notes_view(notes@) =~= seq![
                        plain(REvents::DiscordOpen),
                        plain(REvents::ConnectingIpcClient),
                    ]);
                    RunAction::Connect
                } else {
                    self.phase = RunPhase::Polling;
                    notes.push(note(REvents::DiscordClosed, None, true));
                    assert(notes_view(notes@) =~= seq![
                        (REvents::DiscordClosed, None::<Seq<char>>, true),
                    ]);
                    RunAction::SleepThenPoll(4)
                }
            },
            (RunPhase::Connecting, RunEvent::Connected) => {
                self.phase = RunPhase::Listing;
                let top = self.code.language.get_max();
                let entered = self.code.tmux_session.clone().concat(" entered");
                notes.push(note(REvents::IpcConnectionSuccess, None, false));
                notes.push(note(REvents::SessionStatus, Some(entered), false));
                notes.push(note(REvents::SessionLanguage, Some(top.to_string()), false));
                assert(notes_view(notes@) =~= connected_notes(self.code, top));
                list_windows(&self.code)
            },
            (RunPhase::Connecting, RunEvent::ConnectFailed(e)) => {
                self.phase = RunPhase::Polling;
                notes.push(note(REvents::IpcConnectionError, Some(e), true));
                assert(notes_view(notes@) =~= seq![(REvents::IpcConnectionError, Some(e@), true)]);
                RunAction::SleepThenPoll(5)
            },
            (RunPhase::Listing, RunEvent::Windows(listing)) => {
                let id = window_id_from_listing(listing.as_str());
                if id.as_str().is_empty() {
                    self.code.refresh_from_pane(String::new());
                    self.window = id;
                    self.phase = RunPhase::Loading;
                    RunAction::Load(self.code.presence())
                } else {
                    let target = pane_target(self.code.tmux_session.as_str(), id.as_str());
                    self.window = id;
                    self.phase = RunPhase::Capturing;
                    RunAction::CapturePane(target)
                }
            },
            (RunPhase::Capturing, RunEvent::PaneContent(text)) => {
                self.code.refresh_from_pane(text);
                self.phase = RunPhase::Loading;
                RunAction::Load(self.code.presence())
            },
            (RunPhase::Loading, RunEvent::Shown(ok)) => {
                if ok {
                    self.phase = RunPhase::PollingUpdate;
                    RunAction::Poll
                } else {
                    self.phase = RunPhase::Polling;
                    notes.push(note(REvents::DiscordUnexpextedExit, None, false));
                    assert(notes_view(notes@) =~= seq![plain(REvents::DiscordUnexpextedExit)]);
                    RunAction::Poll
                }
            },
            (RunPhase::PollingUpdate, RunEvent::Received(c)) => {
                let detach = c.detach_status;
                self.code = c;
                if detach {
                    self.phase = RunPhase::Clearing;
                    RunAction::ClearActivity
                } else {
                    self.phase = RunPhase::Listing;
                    list_windows(&self.code)
                }
            },
            (RunPhase::PollingUpdate, RunEvent::Empty) | (
                RunPhase::PollingUpdate,
                RunEvent::Disconnected,
            ) => {
                self.phase = RunPhase::Listing;
                list_windows(&self.code)
            },
            (RunPhase::Clearing, RunEvent::Cleared) => {
                self.phase = RunPhase::Closing;
                notes.push(note(REvents::IpcClearActivity, None, false));
                assert(notes_view(notes@) =~= seq![plain(REvents::IpcClearActivity)]);
                RunAction::CloseClient
            },
            (RunPhase::Closing, RunEvent::Closed) => {
                self.phase = RunPhase::Polling;
                let exited = self.code.tmux_session.clone().concat(" exited");
                notes.push(note(REvents::IpcCloseClient, None, false));
                notes.push(note(REvents::SessionStatus, Some(exited), false));
                assert(notes_view(notes@) =~= seq![
                    plain(REvents::IpcCloseClient),
                    (REvents::SessionStatus, Some(exited@), false),
                ]);
                RunAction::Poll
            },
            _ => self.redo(),
        };
        step_of(notes, action)
    }
}

/// When a detached session arrives while a session is shown, the loop
/// clears the activity, closes the connection, reports the session exited
/// and goes back to polling, asking for nothing else on the way.
pub proof fn lemma_detach_closes(
    s0: &RunState,
    c: Code,
    s1: &RunState,
    n1: Seq<(REvents, Option<Seq<char>>, bool)>,
    a1: RunAction,
    s2: &RunState,
    n2: Seq<(REvents, Option<Seq<char>>, bool)>,
    a2: RunAction,
    s3: &RunState,
    n3: Seq<(REvents, Option<Seq<char>>, bool)>,
    a3: RunAction,
)
    requires
        s0.phase == RunPhase::PollingUpdate,
        c.detach_status,
        stepped(s0, &RunEvent::Received(c), s1, n1, a1),
        stepped(s1, &RunEvent::Cleared, s2, n2, a2),
        stepped(s2, &RunEvent::Closed, s3, n3, a3),
    ensures
        a1 == RunAction::ClearActivity,
        a2 == RunAction::CloseClient,
        a3 == RunAction::Poll,
        s3.phase == RunPhase::Polling,
        s3.code == c,
        n1 + n2 + n3 == seq![
            plain(REvents::IpcClearActivity),
            plain(REvents::IpcCloseClient),
            (REvents::SessionStatus, Some(c.tmux_session@ + " exited"@), false),
        ],
{
    assert(n1 + n2 + n3 =~= seq![
        plain(REvents::IpcClearActivity),
        plain(REvents::IpcCloseClient),
        (REvents::SessionStatus, Some(c.tmux_session@ + " exited"@), false),
    ]);
}

/// After the editor's pane is captured, the activity the loop asks to show
/// is that of the file read from the pane: it says the file is being
/// edited and shows the language of the file's extension, its logo and its
/// name (when the pane can be read and the file has an extension).
pub proof fn lemma_capture_shows_file(
    s0: &RunState,
    text: String,
    s1: &RunState,
    notes: Seq<(REvents, Option<Seq<char>>, bool)>,
    action: RunAction,
)
    requires
        s0.phase == RunPhase::Capturing,
        text@.len() > 0,
        can_refresh(&s0.code, text@),
        extension(spec_parse_pane(text@)).len() > 0,
        stepped(s0, &RunEvent::PaneContent(text), s1, notes, action),
    ensures
        s1.phase == RunPhase::Loading,
        s1.code.file@ == spec_parse_pane(text@),
        action matches RunAction::Load(p) && {
            &&& p.details@ == truncated("Editing: "@ + spec_parse_pane(text@), LINE_LIMIT as nat)
            &&& p.large_image@ == spec_logo(spec_ext_language(extension(spec_parse_pane(text@))))
            &&& p.large_text@ == "Programming Language: "@ + spec_name(
                spec_ext_language(extension(spec_parse_pane(text@))),
            )
        },
{
    let f = spec_parse_pane(text@);
    assert(f.len() > 0);
}

} // verus!
