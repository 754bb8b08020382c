use vstd::prelude::*;
use crate::commands::grep::{grep, lemma_position, lemma_position_range, position, spec_grep};
use crate::text::{split_whitespace, views, words};
use crate::traits::{regex_is_match, regex_match, regex_valid, RegexMatcher};

verus! {

/// What a file path in the status line looks like: directories, a name
/// and an optional extension.
pub const FILE_PATTERN: &'static str = "^*(?:[a-zA-Z0-9_-]+\\/)*[a-zA-Z0-9_-]+(?:\\.[a-zA-Z]+)?*$";

/// Whether `FILE_PATTERN` compiles, as `regex::Regex::new` judges it.
pub fn file_pattern_compiles() -> (res: bool)
    ensures
        res == regex_valid(FILE_PATTERN@),
{
    regex_is_match(FILE_PATTERN, "").is_some()
}

/// The word of `s` at 0-based index `k`, or a single space when there is
/// none.
pub open spec fn word_at(s: Seq<char>, k: int) -> Seq<char> {
    if 0 <= k < words(s).len() {
        words(s)[k]
    } else {
        " "@
    }
}

/// The `no`-th word of `str` (counted from 1), or `" "` when there is none;
/// numbers below 1 give `" "`.
pub fn awk_field(str: &str, no: i32) -> (res: String)
    requires
        no > i32::MIN,
    ensures
        res@ == word_at(str@, no - 1),
{
    let ws = split_whitespace(str);
    let k = no - 1;
    if k >= 0 && (k as usize) < ws.len() {
        let w = ws[k as usize].clone();
        assert(views(ws@)[k as int] == ws@[k as int]@);
        w
    } else {
        String::from_str(" ")
    }
}

/// The word number of the editor's mode label in a status line: that of
/// `INS` when present, else that of `NOR` (-1 when neither is there).
pub open spec fn active_field(s: Seq<char>) -> i32 {
    let nor = spec_grep(s, "NOR"@);
    let ins = spec_grep(s, "INS"@);
    if ins == -1 {
        nor
    } else {
        ins
    }
}

/// The file name in a status line: the word after the mode label if it
/// looks like a file path, else the word after that if it does, else
/// nothing.
pub open spec fn spec_get_filenames(s: Seq<char>) -> Seq<char> {
    let a = active_field(s) as int;
    let first = word_at(s, a);
    let second = word_at(s, a + 1);
    spec_pick_file_name(
        first,
        second,
        regex_match(FILE_PATTERN@, first),
        Some(regex_match(FILE_PATTERN@, second)),
    )
}

/// The file name chosen from the two candidate words, given whether each
/// looks like a file path (`second_matches` is asked only when the first
/// does not match): the first if it matches, else the second if it
/// matches, else nothing.
pub open spec fn spec_pick_file_name(
    first: Seq<char>,
    second: Seq<char>,
    first_matches: bool,
    second_matches: Option<bool>,
) -> Seq<char> {
    if first_matches {
        first
    } else if second_matches == Some(true) {
        second
    } else {
        Seq::empty()
    }
}

/// The file name chosen from the two candidate words (see
/// `spec_pick_file_name`).
pub fn pick_file_name(
    first: String,
    second: String,
    first_matches: bool,
    second_matches: Option<bool>,
) -> (res: String)
    ensures
        res@ == spec_pick_file_name(first@, second@, first_matches, second_matches),
{
    if first_matches {
        first
    } else if second_matches == Some(true) {
        second
    } else {
        String::new()
    }
}

/// The file name in an editor status line (see `spec_get_filenames`).
pub fn get_filenames(text: String) -> (res: String)
    requires
        regex_valid(FILE_PATTERN@),
        words(text@).len() < i32::MAX - 1,
    ensures
        res@ == spec_get_filenames(text@),
{
    let nor_pos = grep(text.as_str(), "NOR");
    let ins_pos = grep(text.as_str(), "INS");
    proof {
        lemma_position_range(words(text@), "NOR"@);
        lemma_position_range(words(text@), "INS"@);
    }
    let active = if ins_pos == -1 {
        nor_pos
    } else {
        ins_pos
    };
    let first = awk_field(text.as_str(), active + 1);
    let first_matches = first.regex(FILE_PATTERN);
    if first_matches {
        pick_file_name(first, String::new(), true, None)
    } else {
        let second = awk_field(text.as_str(), active + 2);
        let second_matches = second.regex(FILE_PATTERN);
        pick_file_name(first, second, false, Some(second_matches))
    }
}


/// What `get_filenames` finds is either nothing or a word of the status
/// line that looks like a file path.
pub proof fn lemma_filenames_look_like_paths(s: Seq<char>)
    ensures
        spec_get_filenames(s).len() == 0 || regex_match(FILE_PATTERN@, spec_get_filenames(s)),
{
}

/// When a status line holds the word `INS`, the file name is looked for
/// right after its first `INS`, whatever else the line holds (a `NOR` word
/// or none): the word after it when that looks like a file path, else the
/// word after that when it does, else nothing.
pub proof fn lemma_filename_after_ins(s: Seq<char>, i: int)
    requires
        words(s).len() < i32::MAX - 1,
        0 <= i < words(s).len(),
        words(s)[i] == "INS"@,
        forall|j: int| 0 <= j < i ==> words(s)[j] != "INS"@,
    ensures
        i + 1 < words(s).len() && regex_match(FILE_PATTERN@, words(s)[i + 1])
            ==> spec_get_filenames(s) == words(s)[i + 1],
        i + 2 < words(s).len() && !regex_match(FILE_PATTERN@, words(s)[i + 1])
            && regex_match(FILE_PATTERN@, words(s)[i + 2])
            ==> spec_get_filenames(s) == words(s)[i + 2],
        i + 2 < words(s).len() && !regex_match(FILE_PATTERN@, words(s)[i + 1])
            && !regex_match(FILE_PATTERN@, words(s)[i + 2])
            ==> spec_get_filenames(s).len() == 0,
{
    lemma_position(words(s), "INS"@, i);
}

/// When a status line holds no word `INS` but a word `NOR`, the file name
/// is looked for right after its first `NOR`: the word after it when that
/// looks like a file path, else the word after that when it does, else
/// nothing.
pub proof fn lemma_filename_after_nor(s: Seq<char>, i: int)
    requires
        words(s).len() < i32::MAX - 1,
        0 <= i < words(s).len(),
        words(s)[i] == "NOR"@,
        forall|j: int| 0 <= j < i ==> words(s)[j] != "NOR"@,
        forall|j: int| 0 <= j < words(s).len() ==> words(s)[j] != "INS"@,
    ensures
        i + 1 < words(s).len() && regex_match(FILE_PATTERN@, words(s)[i + 1])
            ==> spec_get_filenames(s) == words(s)[i + 1],
        i + 2 < words(s).len() && !regex_match(FILE_PATTERN@, words(s)[i + 1])
            && regex_match(FILE_PATTERN@, words(s)[i + 2])
            ==> spec_get_filenames(s) == words(s)[i + 2],
        i + 2 < words(s).len() && !regex_match(FILE_PATTERN@, words(s)[i + 1])
            && !regex_match(FILE_PATTERN@, words(s)[i + 2])
            ==> spec_get_filenames(s).len() == 0,
{
    lemma_position(words(s), "NOR"@, i);
    lemma_position(words(s), "INS"@, words(s).len() as int);
}

/// The size, in bytes, past which the log file is started afresh.
pub const LOG_LIMIT: u64 = 20 * 1024 * 1024;

/// Where the log file `name` lives under the home directory `home`.
pub fn log_path(home: &str, name: &str) -> (res: String)
    ensures
        res@ == home@ + "/"@ + name@,
{
    String::from_str(home).concat("/").concat(name)
}

/// Whether a log file of `len` bytes is to be removed before logging.
pub fn log_too_large(len: u64) -> (res: bool)
    ensures
        res == (len > LOG_LIMIT),
{
    len > LOG_LIMIT
}

} // verus!
