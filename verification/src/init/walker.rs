use vstd::prelude::*;
use crate::text::{contains, contains_str, occurs_at, split, split_char, views};

verus! {

/// The tmux configuration files looked for, in order, in each directory.
pub const TMUX_CONFIGS: [&'static str; 2] = [".tmux.conf", "tmux/tmux.conf"];

/// The tmux hook run when a client attaches.
pub const ATTACH_HOOK: &'static str = "set-hook -g client-attached 'run-shell \"~/.cargo/rise_code/responder.sh attach #{session_name} #{pane_current_path}\"'";

/// The tmux hook run when a client detaches.
pub const DETACH_HOOK: &'static str = "set-hook -g client-detached 'run-shell \"~/.cargo/rise_code/responder.sh detach #{session_name}\"'";

/// The line added to the shell's configuration to start the daemon.
pub const LAUNCH_COMMAND: &'static str = "~/.cargo/rise_code/launcher.sh";

/// The directories searched for configuration files, in order: the XDG
/// configuration directories when set, then `~/.config`, then the home
/// directory itself.
pub open spec fn spec_config_dirs(xdg: Seq<char>, home: Seq<char>) -> Seq<Seq<char>> {
    let tail = seq![home + "/.config"@, home];
    if xdg.len() > 0 {
        seq![xdg] + tail
    } else {
        tail
    }
}

/// The directories searched for configuration files (see
/// `spec_config_dirs`).
pub fn config_dirs(xdg_config_dirs: &str, home: &str) -> (res: Vec<String>)
    ensures
        views(res@) == spec_config_dirs(xdg_config_dirs@, home@),
{
    let mut dirs: Vec<String> = Vec::new();
    if !xdg_config_dirs.is_empty() {
        dirs.push(String::from_str(xdg_config_dirs));
    }
    dirs.push(String::from_str(home).concat("/.config"));
    dirs.push(String::from_str(home));
    assert(views(dirs@) =~= spec_config_dirs(xdg_config_dirs@, home@));
    dirs
}

/// The shell's name: what follows the last `/` of its path.
pub open spec fn shell_name(shell: Seq<char>) -> Seq<char> {
    split(shell, '/').last()
}

/// The configuration files of a shell, looked for in each directory: two
/// candidates for bash and zsh, one for fish (and an empty name), and two
/// empty names for any other shell.
pub open spec fn spec_shell_configs(shell: Seq<char>) -> Seq<Seq<char>> {
    let name = shell_name(shell);
    if name == "bash"@ {
        seq![".bashrc"@, "bash/bashrc"@]
    } else if name == "zsh"@ {
        seq![".zshrc"@, "zsh/zshrc"@]
    } else if name == "fish"@ {
        seq!["fish/config.fish"@, ""@]
    } else {
        seq![""@, ""@]
    }
}

/// The configuration files of the shell at path `shell` (see
/// `spec_shell_configs`).
pub fn shell_configs(shell: &str) -> (res: Vec<String>)
    ensures
        views(res@) == spec_shell_configs(shell@),
{
    let parts = split_char(shell, '/');
    assert(views(parts@).len() == parts@.len());
    assert(split(shell@, '/').len() >= 1);
    let last = parts.len() - 1;
    assert(views(parts@)[last as int] == parts@[last as int]@);
    let name = parts[last].as_str();
    let (a, b) = if crate::text::str_eq(name, "bash") {
        (".bashrc", "bash/bashrc")
    } else if crate::text::str_eq(name, "zsh") {
        (".zshrc", "zsh/zshrc")
    } else if crate::text::str_eq(name, "fish") {
        ("fish/config.fish", "")
    } else {
        ("", "")
    };
    let mut res: Vec<String> = Vec::new();
    res.push(String::from_str(a));
    res.push(String::from_str(b));
    assert(views(res@) =~= spec_shell_configs(shell@));
    res
}

/// Whether candidate `(a, b)` (file `b` in directory `a`) comes before
/// `(i, j)` in the search: directory by directory, and within a directory
/// file by file.
pub open spec fn searched_before(exists: Seq<Seq<bool>>, a: int, b: int, i: int, j: int) -> bool {
    (0 <= a < i && 0 <= b < exists[a].len()) || (a == i && 0 <= b < j)
}

/// The first candidate found, searching directory by directory and, in
/// each, the file names in order; `exists[i][j]` says whether file `j`
/// exists in directory `i`. Gives the directory and file numbers, or
/// nothing when no candidate exists.
pub fn first_existing(exists: &Vec<Vec<bool>>) -> (res: Option<(usize, usize)>)
    ensures
        match res {
            Some((i, j)) => {
                &&& i < exists@.len()
                &&& j < exists@[i as int]@.len()
                &&& exists@[i as int]@[j as int]
                &&& forall|a: int, b: int|
                    searched_before(exists@.map_values(|v: Vec<bool>| v@), a, b, i as int, j as int)
                        ==> !exists@[a]@[b]
            },
            None => forall|a: int, b: int|
                0 <= a < exists@.len() && 0 <= b < exists@[a]@.len() ==> !exists@[a]@[b],
        },
{
    let ghost ex = exists@.map_values(|v: Vec<bool>| v@);
    let mut i: usize = 0;
    while i < exists.len()
        invariant
            i <= exists.len(),
            ex == exists@.map_values(|v: Vec<bool>| v@),
            forall|a: int, b: int|
                0 <= a < i && 0 <= b < exists@[a]@.len() ==> !exists@[a]@[b],
        decreases exists.len() - i,
    {
        let row = &exists[i];
        let mut j: usize = 0;
        while j < row.len()
            invariant
                i < exists.len(),
                j <= row.len(),
                row@ == exists@[i as int]@,
                ex == exists@.map_values(|v: Vec<bool>| v@),
                forall|a: int, b: int|
                    0 <= a < i && 0 <= b < exists@[a]@.len() ==> !exists@[a]@[b],
                forall|b: int| 0 <= b < j ==> !exists@[i as int]@[b],
            decreases row.len() - j,
        {
            if row[j] {
                assert forall|a: int, b: int|
                    searched_before(ex, a, b, i as int, j as int) implies !exists@[a]@[b] by {
                    if a < i {
                        assert(ex[a] == exists@[a]@);
                    }
                }
                return Some((i, j));
            }
            j += 1;
        }
        i += 1;
    }
    None
}

/// The lines of `lines` that do not already occur in the text `existing`,
/// in order.
pub open spec fn missing(lines: Seq<Seq<char>>, existing: Seq<char>) -> Seq<Seq<char>>
    decreases lines.len(),
{
    if lines.len() == 0 {
        Seq::empty()
    } else if contains(existing, lines.last()) {
        missing(lines.drop_last(), existing)
    } else {
        missing(lines.drop_last(), existing).push(lines.last())
    }
}

/// `parts` joined with newlines between them.
pub open spec fn join_lines(parts: Seq<Seq<char>>) -> Seq<char>
    decreases parts.len(),
{
    if parts.len() == 0 {
        Seq::empty()
    } else if parts.len() == 1 {
        parts[0]
    } else {
        join_lines(parts.drop_last()) + "\n"@ + parts.last()
    }
}

/// What has to be appended to a configuration file holding `existing` so
/// that it holds each of `lines`: nothing when it holds them all already,
/// else the missing lines joined with newlines.
pub open spec fn spec_to_append(lines: Seq<Seq<char>>, existing: Seq<char>) -> Option<Seq<char>> {
    let m = missing(lines, existing);
    if m.len() == 0 {
        None
    } else {
        Some(join_lines(m))
    }
}

/// What has to be appended to a configuration file holding `existing` (see
/// `spec_to_append`).
pub fn lines_to_append(lines: &Vec<String>, existing: &str) -> (res: Option<String>)
    ensures
        match res {
            Some(s) => spec_to_append(views(lines@), existing@) == Some(s@),
            None => spec_to_append(views(lines@), existing@) is None,
        },
{
    let ghost ls = views(lines@);
    let mut out = String::new();
    let mut count: usize = 0;
    let mut i: usize = 0;
    while i < lines.len()
        invariant
            i <= lines.len(),
            ls == views(lines@),
            count <= i,
            count == missing(ls.take(i as int), existing@).len(),
            out@ == join_lines(missing(ls.take(i as int), existing@)),
        decreases lines.len() - i,
    {
        assert(ls.take(i + 1).drop_last() == ls.take(i as int));
        assert(ls.take(i + 1).last() == lines@[i as int]@);
        let ghost m = missing(ls.take(i as int), existing@);
        if !contains_str(existing, lines[i].as_str()) {
            assert(missing(ls.take(i + 1), existing@) == m.push(lines@[i as int]@));
            assert(m.push(lines@[i as int]@).drop_last() == m);
            if count > 0 {
                out.append("\n");
            }
            out.append(lines[i].as_str());
            count = count + 1;
        }
        i += 1;
    }
    assert(ls.take(lines.len() as int) == ls);
    if count == 0 {
        None
    } else {
        Some(out)
    }
}


proof fn lemma_contains_prefix(s: Seq<char>, t: Seq<char>, p: Seq<char>)
    requires
        contains(s, p),
    ensures
        contains(s + t, p),
{
    let i = choose|i: int| occurs_at(s, p, i);
    assert((s + t).subrange(i, i + p.len()) == s.subrange(i, i + p.len()));
    assert(occurs_at(s + t, p, i));
}

proof fn lemma_contains_suffix(s: Seq<char>, t: Seq<char>, p: Seq<char>)
    requires
        contains(t, p),
    ensures
        contains(s + t, p),
{
    let i = choose|i: int| occurs_at(t, p, i);
    assert((s + t).subrange(s.len() + i, s.len() + i + p.len()) == t.subrange(i, i + p.len()));
    assert(occurs_at(s + t, p, s.len() + i));
}

proof fn lemma_join_contains(parts: Seq<Seq<char>>, k: int)
    requires
        0 <= k < parts.len(),
    ensures
        contains(join_lines(parts), parts[k]),
    decreases parts.len(),
{
    if parts.len() == 1 {
        assert(occurs_at(parts[0], parts[0], 0)) by {
            assert(parts[0].subrange(0, parts[0].len() as int) == parts[0]);
        }
    } else if k == parts.len() - 1 {
        assert(occurs_at(parts.last(), parts.last(), 0)) by {
            assert(parts.last().subrange(0, parts.last().len() as int) == parts.last());
        }
        lemma_contains_suffix(join_lines(parts.drop_last()) + "\n"@, parts.last(), parts[k]);
    } else {
        lemma_join_contains(parts.drop_last(), k);
        lemma_contains_prefix(join_lines(parts.drop_last()), "\n"@, parts[k]);
        lemma_contains_prefix(join_lines(parts.drop_last()) + "\n"@, parts.last(), parts[k]);
    }
}

proof fn lemma_missing_or_present(lines: Seq<Seq<char>>, existing: Seq<char>, i: int)
    requires
        0 <= i < lines.len(),
    ensures
        contains(existing, lines[i]) || exists|k: int|
            0 <= k < missing(lines, existing).len() && missing(lines, existing)[k] == lines[i],
    decreases lines.len(),
{
    if i < lines.len() - 1 {
        lemma_missing_or_present(lines.drop_last(), existing, i);
        if !contains(existing, lines[i]) {
            let m = missing(lines.drop_last(), existing);
            let k = choose|k: int| 0 <= k < m.len() && m[k] == lines.drop_last()[i];
            assert(missing(lines, existing)[k] == lines[i]);
        }
    } else if !contains(existing, lines[i]) {
        let m = missing(lines, existing);
        assert(m[m.len() - 1] == lines[i]);
    }
}

proof fn lemma_nothing_missing(lines: Seq<Seq<char>>, existing: Seq<char>)
    requires
        forall|i: int| 0 <= i < lines.len() ==> contains(existing, #[trigger] lines[i]),
    ensures
        missing(lines, existing).len() == 0,
    decreases lines.len(),
{
    if lines.len() > 0 {
        assert(contains(existing, lines[lines.len() - 1]));
        assert forall|i: int| 0 <= i < lines.drop_last().len() implies contains(
            existing,
            #[trigger] lines.drop_last()[i],
        ) by {
            assert(lines.drop_last()[i] == lines[i]);
        }
        lemma_nothing_missing(lines.drop_last(), existing);
    }
}

/// Appending what `lines_to_append` asks for settles the file: a file
/// holding `existing` followed by the appended text needs nothing more, so
/// running the setup again appends nothing.
pub proof fn lemma_append_settles(lines: Seq<Seq<char>>, existing: Seq<char>)
    ensures
        spec_to_append(lines, existing) matches Some(buf) ==> spec_to_append(
            lines,
            existing + buf,
        ) is None,
        spec_to_append(lines, existing) is None ==> forall|i: int|
            0 <= i < lines.len() ==> contains(existing, #[trigger] lines[i]),
{
    let m = missing(lines, existing);
    assert forall|i: int| 0 <= i < lines.len() implies contains(
        existing + join_lines(m),
        #[trigger] lines[i],
    ) by {
        lemma_missing_or_present(lines, existing, i);
        if contains(existing, lines[i]) {
            lemma_contains_prefix(existing, join_lines(m), lines[i]);
        } else {
            let k = choose|k: int| 0 <= k < m.len() && m[k] == lines[i];
            lemma_join_contains(m, k);
            lemma_contains_suffix(existing, join_lines(m), lines[i]);
        }
    }
    lemma_nothing_missing(lines, existing + join_lines(m));
    if m.len() == 0 {
        assert forall|i: int| 0 <= i < lines.len() implies contains(existing, #[trigger] lines[i]) by {
            lemma_missing_or_present(lines, existing, i);
        }
    }
}

} // verus!
