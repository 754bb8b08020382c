use vstd::prelude::*;
use crate::interface::code::Code;
use crate::interface::languages::{spec_language_named, Language, LanguageExt};
use crate::text::{split, split_char, trim, trim_str, views};
use crate::traits::{UnwrapAndLog, UnwrapAndLogOr};

verus! {

/// The fields of an attach request: the trimmed payload split at `:`
/// into session name, language, file name and repository.
pub open spec fn attach_fields(payload: Seq<char>) -> Seq<Seq<char>> {
    split(trim(payload), ':')
}

/// The warning for a request without a session name.
pub const SESSION_MISSING: &'static str = "Session name returned none";

/// The warning for a request without a language.
pub const LANGUAGE_MISSING: &'static str = "language returned none";

/// The warning for a request without a file name.
pub const FILE_MISSING: &'static str = "file name returned none";

/// The warning for a request without a repository.
pub const REPO_MISSING: &'static str = "repo name returned none";

/// The warnings an attach request gives for its missing fields, in field
/// order: session name, language, file name, repository.
pub open spec fn spec_missing_warnings(payload: Seq<char>) -> Seq<Seq<char>> {
    let n = attach_fields(payload).len();
    let w = |k: int, m: Seq<char>|
        if n <= k {
            seq![m]
        } else {
            Seq::<Seq<char>>::empty()
        };
    w(0, SESSION_MISSING@) + w(1, LANGUAGE_MISSING@) + w(2, FILE_MISSING@) + w(3, REPO_MISSING@)
}

/// The warnings an attach request gives for its missing fields (see
/// `spec_missing_warnings`); `parse_payload` fills those fields in with
/// empty text (the repository with `https://`).
pub fn missing_field_warnings(payload: &str) -> (res: Vec<String>)
    ensures
        views(res@) == spec_missing_warnings(payload@),
{
    let n = split_char(trim_str(payload), ':').len();
    let mut res: Vec<String> = Vec::new();
    if n <= 0 {
        res.push(String::from_str(SESSION_MISSING));
    }
    if n <= 1 {
        res.push(String::from_str(LANGUAGE_MISSING));
    }
    if n <= 2 {
        res.push(String::from_str(FILE_MISSING));
    }
    if n <= 3 {
        res.push(String::from_str(REPO_MISSING));
    }
    assert(views(res@) =~= spec_missing_warnings(payload@));
    res
}

/// Field `i` of an attach request, or empty when it is missing.
pub open spec fn field(fs: Seq<Seq<char>>, i: int) -> Seq<char> {
    if i < fs.len() {
        fs[i]
    } else {
        Seq::empty()
    }
}

/// The repository link of an attach request: the repository path on
/// GitHub, or `https://` when the request names none.
pub open spec fn repo_link(fs: Seq<Seq<char>>) -> Seq<char> {
    if fs.len() > 3 {
        "https://github.com/"@ + fs[3]
    } else {
        "https://"@
    }
}

/// What an attach request turns into: an attached session with the named
/// session, language, file and repository, started at `start`.
pub open spec fn is_attached_from(code: &Code, payload: Seq<char>, start: i64) -> bool {
    let fs = attach_fields(payload);
    let l = spec_language_named(field(fs, 1));
    &&& code.tmux_session@ == fs[0]
    &&& code.language.current() == l
    &&& code.language.tally() == Map::<Language, nat>::empty().insert(l, 2)
    &&& code.file@ == field(fs, 2)
    &&& code.github@ == repo_link(fs)
    &&& code.attach_status
    &&& !code.detach_status
    &&& code.duration == start
}

fn field_at(parts: &Vec<String>, i: usize) -> (res: Option<String>)
    ensures
        i < parts.len() ==> (res matches Some(s) && s@ == parts@[i as int]@),
        i >= parts.len() ==> res is None,
{
    if i < parts.len() {
        Some(parts[i].clone())
    } else {
        None
    }
}

/// The session an attach request describes, started at `start`.
pub fn parse_payload(payload: &str, start: i64) -> (res: Code)
    ensures
        is_attached_from(&res, payload@, start),
{
    let parts = split_char(trim_str(payload), ':');
    let ghost fs = attach_fields(payload@);
    assert(views(parts@) == fs);
    assert(fs.len() > 0);
    assert(views(parts@)[0] == parts@[0]@);
    let session_name = field_at(&parts, 0).unwrap_log(SESSION_MISSING);
    let language = field_at(&parts, 1).unwrap_log(LANGUAGE_MISSING);
    proof {
        if 1 < parts.len() {
            assert(views(parts@)[1] == parts@[1]@);
        }
    }
    let mut def_lang = LanguageExt::default();
    def_lang.push(language.as_str());
    let file_name = field_at(&parts, 2).unwrap_log(FILE_MISSING);
    proof {
        if 2 < parts.len() {
            assert(views(parts@)[2] == parts@[2]@);
        }
    }
    let repo = match field_at(&parts, 3) {
        Some(r) => {
            assert(views(parts@)[3] == parts@[3]@);
            Some(String::from_str("https://github.com/").concat(r.as_str()))
        },
        None => None,
    };
    let repo_name = repo.unwrap_log_or(REPO_MISSING, String::from_str("https://"));
    Code::new(
        session_name.as_str(),
        def_lang,
        file_name.as_str(),
        repo_name.as_str(),
        true,
        false,
        start,
    )
}

} // verus!
