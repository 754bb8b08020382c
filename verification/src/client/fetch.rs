use vstd::prelude::*;
use crate::interface::code::Code;
use crate::interface::languages::{
    lemma_max_unique, lemma_name_roundtrip, spec_ext_language, Language, LanguageExt,
};
use crate::loader::helpers::{file_pattern_compiles, FILE_PATTERN};
use crate::loader::parser::{has_pane_shape, pane_shape_ok, parse_pane, spec_parse_pane};
use crate::text::{chars_of, last_index_of, rfind_char, string_of};
use crate::traits::regex_valid;

verus! {

/// The extension of a file name: what follows its last `.`, or nothing
/// when there is no `.`.
pub open spec fn extension(f: Seq<char>) -> Seq<char> {
    let k = last_index_of(f, '.');
    if k < 0 {
        Seq::empty()
    } else {
        f.subrange(k + 1, f.len() as int)
    }
}

/// The extension of a file name (see `extension`).
pub fn extension_of(file: &str) -> (res: String)
    ensures
        res@ == extension(file@),
{
    let cs = chars_of(file);
    match rfind_char(&cs, '.') {
        Some(k) => {
            proof {
                lemma_last_index_range(cs@, '.');
            }
            string_of(&cs, k + 1, cs.len())
        },
        None => String::new(),
    }
}

proof fn lemma_last_index_range(s: Seq<char>, c: char)
    ensures
        -1 <= last_index_of(s, c) < s.len(),
    decreases s.len(),
{
    if s.len() > 0 {
        lemma_last_index_range(s.drop_last(), c);
    }
}

/// How the session changes when the file being edited is read as `f`:
/// `f` becomes the session's file, and the language of its extension is
/// counted and made current, or, for a file without extension, the most
/// frequent language seen is made current.
pub open spec fn file_applied(before: &Code, f: Seq<char>, after: &Code) -> bool {
    let e = extension(f);
    let t = before.language.tally();
    &&& after.tmux_session == before.tmux_session
    &&& after.github == before.github
    &&& after.attach_status == before.attach_status
    &&& after.detach_status == before.detach_status
    &&& after.duration == before.duration
    &&& after.file@ == f
    &&& if e.len() > 0 {
        let l = spec_ext_language(e);
        &&& after.language.current() == l
        &&& after.language.tally() == t.insert(l, LanguageExt::bumped(t, l))
    } else {
        &&& LanguageExt::spec_max(t, after.language.current())
        &&& after.language.tally() == t
    }
}

/// How the session changes when the editor's pane shows `pane`: nothing is
/// read from an empty pane, which clears the file name and leaves the rest;
/// otherwise the file name in the pane is read (see `file_applied`).
pub open spec fn pane_applied(before: &Code, pane: Seq<char>, after: &Code) -> bool {
    if pane.len() == 0 {
        &&& after.tmux_session == before.tmux_session
        &&& after.github == before.github
        &&& after.attach_status == before.attach_status
        &&& after.detach_status == before.detach_status
        &&& after.duration == before.duration
        &&& after.file@ == Seq::<char>::empty()
        &&& after.language.current() == before.language.current()
        &&& after.language.tally() == before.language.tally()
    } else {
        file_applied(before, spec_parse_pane(pane), after)
    }
}

/// Whether the language of file `f` can be counted once more (a file
/// without extension counts nothing).
pub open spec fn room_for_file(code: &Code, f: Seq<char>) -> bool {
    extension(f).len() > 0 ==> LanguageExt::spec_room_for(
        code.language.tally(),
        spec_ext_language(extension(f)),
    )
}

/// Whether the pane can be read into the session: an empty pane always
/// can; a non-empty one when the file-name pattern compiles, the pane has
/// the shape of an editor pane, and the language of the file found can be
/// counted once more.
pub open spec fn can_refresh(code: &Code, pane: Seq<char>) -> bool {
    pane.len() > 0 ==> {
        &&& regex_valid(FILE_PATTERN@)
        &&& pane_shape_ok(pane)
        &&& room_for_file(code, spec_parse_pane(pane))
    }
}

/// The session after reading a pane when that can be done (see
/// `pane_applied`), and unchanged otherwise.
pub open spec fn pane_refreshed(before: &Code, pane: Seq<char>, after: &Code) -> bool {
    if can_refresh(before, pane) {
        pane_applied(before, pane, after)
    } else {
        *after == *before
    }
}

/// Reading a file without extension makes current the most frequent known
/// language seen in the session: a known language counted at least as
/// often as every other known one, or `Unknown` when no known language was
/// seen.
pub proof fn lemma_no_extension_most_frequent(before: &Code, f: Seq<char>, after: &Code)
    requires
        extension(f).len() == 0,
        file_applied(before, f, after),
    ensures
        (exists|l: Language| before.language.tally().contains_key(l) && l != Language::Unknown)
            ==> {
            &&& before.language.tally().contains_key(after.language.current())
            &&& after.language.current() != Language::Unknown
            &&& forall|l: Language|
                before.language.tally().contains_key(l) && l != Language::Unknown
                    ==> #[trigger] before.language.tally()[l]
                    <= before.language.tally()[after.language.current()]
        },
        !(exists|l: Language| before.language.tally().contains_key(l) && l != Language::Unknown)
            ==> after.language.current() == Language::Unknown,
{
}

/// Which language a file without extension makes current depends on the
/// languages counted so far alone, not on the language that was current:
/// two sessions with the same tally end with the same current language.
pub proof fn lemma_no_extension_ignores_current(
    b1: &Code,
    b2: &Code,
    f: Seq<char>,
    a1: &Code,
    a2: &Code,
)
    requires
        extension(f).len() == 0,
        b1.language.tally() == b2.language.tally(),
        file_applied(b1, f, a1),
        file_applied(b2, f, a2),
    ensures
        a1.language.current() == a2.language.current(),
{
    lemma_max_unique(b1.language.tally(), a1.language.current(), a2.language.current());
}

impl Code {
    /// Reads `file` as the file being edited, and its language (see
    /// `file_applied`).
    fn apply_file(&mut self, file: String)
        requires
            room_for_file(old(self), file@),
        ensures
            file_applied(old(self), file@, final(self)),
    {
        let mut language = self.language.clone();
        let ext = extension_of(file.as_str());
        if !ext.as_str().is_empty() {
            language.push_ext(ext.as_str());
        } else {
            language.get_max_ext();
        }
        self.language(language);
        self.file(file.as_str());
    }

    /// Reads the file being edited, and its language, from the text of the
    /// editor's pane (see `pane_applied`).
    pub fn apply_pane_content(&mut self, pane_content: String)
        requires
            can_refresh(old(self), pane_content@),
        ensures
            pane_applied(old(self), pane_content@, final(self)),
    {
        if pane_content.as_str().is_empty() {
            let empty = String::new();
            self.file(empty.as_str());
        } else {
            let file = parse_pane(pane_content);
            self.apply_file(file);
        }
    }

    /// Whether the language of extension `ext` can take one more count in
    /// this session (an empty extension counts nothing).
    fn room_for_ext(&self, ext: &str) -> (res: bool)
        ensures
            res == (ext@.len() > 0 ==> LanguageExt::spec_room_for(
                self.language.tally(),
                spec_ext_language(ext@),
            )),
    {
        if ext.is_empty() {
            return true;
        }
        let name = Language::get_language(ext);
        let l = Language::get_language_name(name.as_str());
        proof {
            lemma_name_roundtrip(spec_ext_language(ext@));
        }
        self.language.has_room_for(l)
    }

    /// Reads the file being edited, and its language, from the text of the
    /// editor's pane when that can be done (see `can_refresh`). Says
    /// whether it was done; when it was not, the session is left as it
    /// was.
    pub fn refresh_from_pane(&mut self, pane_content: String) -> (res: bool)
        ensures
            res == can_refresh(old(self), pane_content@),
            pane_refreshed(old(self), pane_content@, final(self)),
    {
        if pane_content.as_str().is_empty() {
            self.apply_pane_content(pane_content);
            return true;
        }
        if !file_pattern_compiles() || !has_pane_shape(pane_content.as_str()) {
            return false;
        }
        let file = parse_pane(pane_content);
        let ext = extension_of(file.as_str());
        if !self.room_for_ext(ext.as_str()) {
            return false;
        }
        self.apply_file(file);
        true
    }
}

} // verus!
