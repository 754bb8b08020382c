use vstd::prelude::*;
use crate::loader::helpers::{get_filenames, spec_get_filenames, FILE_PATTERN};
use crate::text::{contains, contains_str, split, split_char, split_whitespace, views, words};
use crate::traits::regex_valid;

verus! {

/// The two status lines of a pane of `n` lines (`n >= 4`), joined: line
/// `n / 2 - 2` (the middle status line) followed by line `n - 3` (the
/// bottom status line).
pub open spec fn status_lines(text: Seq<char>) -> Seq<char> {
    let lines = split(text, '\n');
    let n = lines.len();
    lines[n / 2 - 2] + lines[n - 3]
}

/// Whether a pane has the shape `parse_pane` reads: at least four lines,
/// and status lines whose words can be numbered by an `i32`.
pub open spec fn pane_shape_ok(text: Seq<char>) -> bool {
    &&& split(text, '\n').len() >= 4
    &&& words(status_lines(text)).len() < i32::MAX - 1
}

/// The joined status lines of a pane of at least four lines.
fn join_status_lines(line: &Vec<String>, text: &str) -> (res: String)
    requires
        views(line@) == split(text@, '\n'),
        line.len() >= 4,
    ensures
        res@ == status_lines(text@),
{
    let n = line.len();
    let middle = n / 2 - 2;
    assert(views(line@)[middle as int] == line@[middle as int]@);
    assert(views(line@)[n - 3] == line@[n - 3]@);
    let mut combined_status = line[middle].clone();
    combined_status.append(line[n - 3].as_str());
    combined_status
}

/// Whether a captured pane has the shape `parse_pane` needs.
pub fn has_pane_shape(text: &str) -> (res: bool)
    ensures
        res == pane_shape_ok(text@),
{
    let line = split_char(text, '\n');
    if line.len() < 4 {
        return false;
    }
    let combined = join_status_lines(&line, text);
    split_whitespace(combined.as_str()).len() < 0x7fff_fffe
}

/// The file name shown in a captured pane: the pane's status lines are
/// joined and searched (see `spec_get_filenames`).
pub open spec fn spec_parse_pane(text: Seq<char>) -> Seq<char> {
    spec_get_filenames(status_lines(text))
}

/// The file name shown in a captured pane (see `spec_parse_pane`).
pub fn parse_pane(text: String) -> (res: String)
    requires
        pane_shape_ok(text@),
        regex_valid(FILE_PATTERN@),
    ensures
        res@ == spec_parse_pane(text@),
{
    let line = split_char(text.as_str(), '\n');
    let combined_status = join_status_lines(&line, text.as_str());
    get_filenames(combined_status)
}

/// Only the two status lines of a pane are read: two panes with as many
/// lines, whose middle status line (line `n / 2 - 2`) and bottom status
/// line (line `n - 3`) agree, show the same file name, whatever their
/// other lines hold.
pub proof fn lemma_pane_reads_status_lines_only(p1: Seq<char>, p2: Seq<char>)
    requires
        split(p1, '\n').len() >= 4,
        split(p1, '\n').len() == split(p2, '\n').len(),
        split(p1, '\n')[split(p1, '\n').len() / 2 - 2] == split(p2, '\n')[split(p2, '\n').len()
            / 2 - 2],
        split(p1, '\n')[split(p1, '\n').len() - 3] == split(p2, '\n')[split(p2, '\n').len() - 3],
    ensures
        spec_parse_pane(p1) == spec_parse_pane(p2),
{
}

/// The id of the first window whose listing line mentions `hx`: the first
/// word of the first line of `lines` that contains `hx` and has a word;
/// empty when there is no such line.
pub open spec fn first_hx_window(lines: Seq<Seq<char>>) -> Seq<char>
    decreases lines.len(),
{
    if lines.len() == 0 {
        Seq::empty()
    } else if contains(lines[0], "hx"@) && words(lines[0]).len() > 0 {
        words(lines[0])[0]
    } else {
        first_hx_window(lines.drop_first())
    }
}

/// The id of the editor's window in a tmux window listing (lines of
/// `index name`): the first word of the first line mentioning `hx`, or
/// empty when no line does.
pub fn window_id_from_listing(listing: &str) -> (res: String)
    ensures
        res@ == first_hx_window(split(listing@, '\n')),
{
    let lines = split_char(listing, '\n');
    let ghost ls = split(listing@, '\n');
    let mut i: usize = 0;
    assert(ls.skip(0) == ls);
    while i < lines.len()
        invariant
            i <= lines.len(),
            views(lines@) == ls,
            ls == split(listing@, '\n'),
            first_hx_window(ls) == first_hx_window(ls.skip(i as int)),
        decreases lines.len() - i,
    {
        assert(views(lines@)[i as int] == lines@[i as int]@);
        assert(ls.skip(i as int)[0] == ls[i as int]);
        assert(ls.skip(i as int).drop_first() == ls.skip(i + 1));
        if contains_str(lines[i].as_str(), "hx") {
            let ws = split_whitespace(lines[i].as_str());
            if ws.len() > 0 {
                assert(views(ws@)[0] == ws@[0]@);
                assert(ls.skip(i as int).len() > 0);
                assert(first_hx_window(ls.skip(i as int)) == words(ls[i as int])[0]);
                let w = ws[0].clone();
                assert(w@ == words(ls[i as int])[0]);

                return w;
            }
        }
        i += 1;
    }
    String::new()
}

/// The tmux target of a window in a session: `session:window`.
pub fn pane_target(session: &str, window: &str) -> (res: String)
    ensures
        res@ == session@ + ":"@ + window@,
{
    let mut t = String::from_str(session);
    t.append(":");
    t.append(window);
    t
}

} // verus!
