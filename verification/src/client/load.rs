use vstd::prelude::*;
use crate::interface::code::Code;
use crate::client::fetch::{extension, file_applied};
use crate::interface::languages::{spec_ext_language, spec_logo, spec_name};
use crate::text::{ends_with, ends_with_str, trim, trim_str};
use crate::traits::{truncated, RiseFormat};

verus! {

/// A rich-presence activity, as plain text: the two lines shown, the large
/// and small images with their hover texts, when the session started, and
/// an optional button (label and link).
pub struct Presence {
    pub state: String,
    pub details: String,
    pub large_image: String,
    pub large_text: String,
    pub small_image: String,
    pub small_text: String,
    pub start: i64,
    pub button: Option<(String, String)>,
}

/// The longest line, in characters, that an activity shows.
pub const LINE_LIMIT: usize = 128;

/// Whether a repository link names a repository: it does unless, trimmed,
/// it ends with `.com/` (a bare host).
pub open spec fn names_repo(github: Seq<char>) -> bool {
    !ends_with(trim(github), ".com/"@)
}

/// Whether `p` is the activity that shows session `code`: the tmux session
/// and what is being edited (the file, or else the language) as the two
/// lines, each cut to `LINE_LIMIT` characters; the language's logo and name;
/// the editor's logo and the session; the start time; and a button to the
/// repository when the session names one.
pub open spec fn shows(code: &Code, p: &Presence) -> bool {
    let name = spec_name(code.language.current());
    let session = code.tmux_session@;
    let doing = if code.file@.len() == 0 {
        "Coding: "@ + name
    } else {
        "Editing: "@ + code.file@
    };
    &&& p.state@ == truncated("#Tmux: "@ + session, LINE_LIMIT as nat)
    &&& p.details@ == truncated(doing, LINE_LIMIT as nat)
    &&& p.large_image@ == spec_logo(code.language.current())
    &&& p.large_text@ == "Programming Language: "@ + name
    &&& p.small_image@ == "helix-logo-nice"@
    &&& p.small_text@ == "Helix Editor opened in Tmux: "@ + session
    &&& p.start == code.duration
    &&& if names_repo(code.github@) {
        p.button matches Some(b) && b.0@ == "View Git Repo"@ && b.1@ == code.github@
    } else {
        p.button is None
    }
}

/// The activity shows the language that is current in the session,
/// whatever else was counted: two sessions with the same current language
/// show the same language logo and language name.
pub proof fn lemma_shows_current_language(c1: &Code, p1: &Presence, c2: &Code, p2: &Presence)
    requires
        shows(c1, p1),
        shows(c2, p2),
        c1.language.current() == c2.language.current(),
    ensures
        p1.large_image@ == p2.large_image@,
        p1.large_text@ == p2.large_text@,
{
}

/// Once a file with an extension is read into the session, the activity
/// shows the language of that extension, its logo and its name, however
/// often other languages were counted before.
pub proof fn lemma_shows_file_language(before: &Code, f: Seq<char>, after: &Code, p: &Presence)
    requires
        extension(f).len() > 0,
        file_applied(before, f, after),
        shows(after, p),
    ensures
        p.large_image@ == spec_logo(spec_ext_language(extension(f))),
        p.large_text@ == "Programming Language: "@ + spec_name(spec_ext_language(extension(f))),
{
}

impl Code {
    /// The activity that shows this session (see `shows`).
    pub fn presence(&self) -> (res: Presence)
        ensures
            shows(self, &res),
    {
        let lang = self.language.current_language();
        let name = lang.to_string();
        let big_text = String::from_str("Programming Language: ").concat(name.as_str());
        let small_text = String::from_str("Helix Editor opened in Tmux: ").concat(
            self.tmux_session.as_str(),
        );
        let code_str = if self.file.as_str().is_empty() {
            String::from_str("Coding: ").concat(name.as_str())
        } else {
            String::from_str("Editing: ").concat(self.file.as_str())
        };
        let tmux = String::from_str("#Tmux: ").concat(self.tmux_session.as_str());
        let img = lang.get_logo();
        let button = if !ends_with_str(trim_str(self.github.as_str()), ".com/") {
            Some((String::from_str("View Git Repo"), self.github.clone()))
        } else {
            None
        };
        Presence {
            state: String::from_str(tmux.truncate(LINE_LIMIT)),
            details: String::from_str(code_str.truncate(LINE_LIMIT)),
            large_image: img,
            large_text: big_text,
            small_image: String::from_str("helix-logo-nice"),
            small_text,
            start: self.duration,
            button,
        }
    }
}

} // verus!
