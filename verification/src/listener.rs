//! The daemon's side of the tmux hooks: a request arrives on the socket,
//! and the session is attached or detached accordingly.

pub mod attach;
pub mod detach;

use vstd::prelude::*;
use crate::interface::code::Code;
use crate::listener::attach::{attach_fields, is_attached_from};
use crate::interface::languages::{spec_language_named, Language};
use crate::text::{is_ws, lemma_split_piece, trim, trim_end, trim_start};

verus! {

/// What became of a request on the socket.
#[derive(Debug, Clone, Copy, PartialEq, Eq, Structural)]
pub enum ListenerAction {
    /// The session was detached and the request attached it.
    Attached,
    /// The session was attached and the request, naming it, detached it.
    Detached,
    /// The session was attached and the request named another session; it
    /// was dropped.
    DetachDropped,
}

/// `after` is `before` detached at time `now`: no longer attached, and its
/// start time turned into the time it ran.
pub open spec fn is_detached_from(after: &Code, before: &Code, now: i64) -> bool {
    &&& !after.attach_status
    &&& after.detach_status
    &&& after.duration == now.wrapping_sub(before.duration)
    &&& after.tmux_session == before.tmux_session
    &&& after.language == before.language
    &&& after.file == before.file
    &&& after.github == before.github
}

/// How one request with text `payload`, arriving at time `now`, takes the
/// session from `before` to `after`: a detached session is attached as the
/// request describes; an attached session is detached by a request naming
/// it, and left alone by any other.
pub open spec fn handled(
    before: &Code,
    payload: Seq<char>,
    now: i64,
    after: &Code,
    res: ListenerAction,
) -> bool {
    if !before.attach_status {
        res == ListenerAction::Attached && is_attached_from(after, payload, now)
    } else if trim(payload) == before.tmux_session@ {
        res == ListenerAction::Detached && is_detached_from(after, before, now)
    } else {
        res == ListenerAction::DetachDropped && *after == *before
    }
}

/// Handles one request that arrived on the socket at time `now` (see
/// `handled`).
pub fn handle_request(session: &mut Code, payload: &str, now: i64) -> (res: ListenerAction)
    ensures
        handled(old(session), payload@, now, final(session), res),
{
    if !session.attach_status {
        let code = attach::parse_payload(payload, now);
        session.update(&code);
        ListenerAction::Attached
    } else {
        let name = detach::parse_payload(payload);
        if name == session.tmux_session {
            session.disconnect(now);
            ListenerAction::Detached
        } else {
            ListenerAction::DetachDropped
        }
    }
}

/// A session attached by one request and then sent a request naming it is
/// detached again, and the time it ran is the time between the two
/// requests (when that fits an `i64`).
pub proof fn lemma_attach_then_detach(
    s0: &Code,
    p: Seq<char>,
    t1: i64,
    s1: &Code,
    r1: ListenerAction,
    q: Seq<char>,
    t2: i64,
    s2: &Code,
    r2: ListenerAction,
)
    requires
        !s0.attach_status,
        handled(s0, p, t1, s1, r1),
        handled(s1, q, t2, s2, r2),
        trim(q) == attach_fields(p)[0],
    ensures
        r1 == ListenerAction::Attached,
        r2 == ListenerAction::Detached,
        !s2.attach_status,
        s2.detach_status,
        s2.tmux_session@ == attach_fields(p)[0],
        s2.file == s1.file,
        s2.github == s1.github,
        i64::MIN <= t2 - t1 <= i64::MAX ==> s2.duration == t2 - t1,
{
}

/// A request that names another session leaves an attached session as it
/// was, whatever else it says.
pub proof fn lemma_foreign_detach_ignored(
    s0: &Code,
    q: Seq<char>,
    t: i64,
    s1: &Code,
    r: ListenerAction,
)
    requires
        s0.attach_status,
        handled(s0, q, t, s1, r),
        trim(q) != s0.tmux_session@,
    ensures
        r == ListenerAction::DetachDropped,
        *s1 == *s0,
{
}


/// A request to a detached session attaches it: the session becomes the
/// one the request describes, in all its fields, started at `now`.
pub proof fn lemma_attach_request(
    s0: &Code,
    p: Seq<char>,
    now: i64,
    s1: &Code,
    r: ListenerAction,
)
    requires
        !s0.attach_status,
        handled(s0, p, now, s1, r),
    ensures
        r == ListenerAction::Attached,
        is_attached_from(s1, p, now),
        s1.attach_status,
        !s1.detach_status,
{
}

/// An attach request is the session name, the language, the file name and
/// the repository path joined by `:`. When none of the four holds a `:` and
/// the request has no surrounding whitespace, a detached session is
/// attached with exactly those values: that session, that language (seen
/// once), that file and the repository's GitHub link, started at `now`.
pub proof fn lemma_attach_request_fields(
    s0: &Code,
    session: Seq<char>,
    language: Seq<char>,
    file: Seq<char>,
    repo: Seq<char>,
    now: i64,
    s1: &Code,
    r: ListenerAction,
)
    requires
        forall|i: int| 0 <= i < session.len() ==> session[i] != ':',
        forall|i: int| 0 <= i < language.len() ==> language[i] != ':',
        forall|i: int| 0 <= i < file.len() ==> file[i] != ':',
        forall|i: int| 0 <= i < repo.len() ==> repo[i] != ':',
        session.len() > 0 && !is_ws(session[0]),
        repo.len() > 0 && !is_ws(repo.last()),
        !s0.attach_status,
        handled(
            s0,
            session + seq![':'] + language + seq![':'] + file + seq![':'] + repo,
            now,
            s1,
            r,
        ),
    ensures
        r == ListenerAction::Attached,
        s1.tmux_session@ == session,
        s1.language.current() == spec_language_named(language),
        s1.language.tally() == Map::<Language, nat>::empty().insert(
            spec_language_named(language),
            2,
        ),
        s1.file@ == file,
        s1.github@ == "https://github.com/"@ + repo,
        s1.attach_status,
        !s1.detach_status,
        s1.duration == now,
{
    let p = session + seq![':'] + language + seq![':'] + file + seq![':'] + repo;
    assert(p[0] == session[0]);
    assert(p.last() == repo.last());
    assert(trim_start(p) == p);
    assert(trim_end(p) == p);
    lemma_split_piece(session, session, ':');
    lemma_split_piece(session, language, ':');
    lemma_split_piece(session + seq![':'] + language, file, ':');
    lemma_split_piece(session + seq![':'] + language + seq![':'] + file, repo, ':');
    let fs = attach_fields(p);
    assert(fs == seq![session, language, file, repo]);
}

/// An attach request with no repository (session name, language and file
/// name joined by `:`, none holding a `:`, with no surrounding whitespace)
/// attaches a detached session with those values and the bare `https://`
/// as its link.
pub proof fn lemma_attach_request_without_repo(
    s0: &Code,
    session: Seq<char>,
    language: Seq<char>,
    file: Seq<char>,
    now: i64,
    s1: &Code,
    r: ListenerAction,
)
    requires
        forall|i: int| 0 <= i < session.len() ==> session[i] != ':',
        forall|i: int| 0 <= i < language.len() ==> language[i] != ':',
        forall|i: int| 0 <= i < file.len() ==> file[i] != ':',
        session.len() > 0 && !is_ws(session[0]),
        file.len() > 0 && !is_ws(file.last()),
        !s0.attach_status,
        handled(s0, session + seq![':'] + language + seq![':'] + file, now, s1, r),
    ensures
        r == ListenerAction::Attached,
        s1.tmux_session@ == session,
        s1.language.current() == spec_language_named(language),
        s1.file@ == file,
        s1.github@ == "https://"@,
        s1.attach_status,
        !s1.detach_status,
        s1.duration == now,
{
    let p = session + seq![':'] + language + seq![':'] + file;
    assert(p[0] == session[0]);
    assert(p.last() == file.last());
    assert(trim_start(p) == p);
    assert(trim_end(p) == p);
    lemma_split_piece(session, session, ':');
    lemma_split_piece(session, language, ':');
    lemma_split_piece(session + seq![':'] + language, file, ':');
    assert(attach_fields(p) == seq![session, language, file]);
}

/// A request to an attached session that names it, trimmed, detaches it:
/// only the attach and detach flags and the duration change, and the
/// duration becomes `now` minus the start (when that fits an `i64`).
pub proof fn lemma_detach_request(
    s0: &Code,
    q: Seq<char>,
    now: i64,
    s1: &Code,
    r: ListenerAction,
)
    requires
        s0.attach_status,
        trim(q) == s0.tmux_session@,
        handled(s0, q, now, s1, r),
    ensures
        r == ListenerAction::Detached,
        !s1.attach_status,
        s1.detach_status,
        s1.tmux_session == s0.tmux_session,
        s1.language == s0.language,
        s1.file == s0.file,
        s1.github == s0.github,
        i64::MIN <= now - s0.duration <= i64::MAX ==> s1.duration == now - s0.duration,
{
}

/// A run of the listener over requests `payloads` arriving at `times`:
/// `states[0]` is the starting session, and request `i` took `states[i]`
/// to `states[i + 1]` with result `results[i]`.
pub open spec fn is_run(
    states: Seq<Code>,
    payloads: Seq<Seq<char>>,
    times: Seq<i64>,
    results: Seq<ListenerAction>,
) -> bool {
    &&& states.len() == payloads.len() + 1
    &&& times.len() == payloads.len()
    &&& results.len() == payloads.len()
    &&& forall|i: int|
        0 <= i < payloads.len() ==> #[trigger] handled(
            &states[i],
            payloads[i],
            times[i],
            &states[i + 1],
            results[i],
        )
}

/// The sessions handed on during the first `n` requests of a run: after
/// each request that attached or detached, the session as it then stood.
pub open spec fn sent(states: Seq<Code>, results: Seq<ListenerAction>, n: nat) -> Seq<Code>
    decreases n,
{
    if n == 0 {
        Seq::empty()
    } else {
        let prev = sent(states, results, (n - 1) as nat);
        if results[n - 1] == ListenerAction::DetachDropped {
            prev
        } else {
            prev.push(states[n as int])
        }
    }
}

/// What the sessions handed on look like: attached and detached ones
/// alternate, starting with an attached one, each detached one is the
/// session attached just before it, and every one is detached exactly when
/// it is not attached.
pub open spec fn alternates(out: Seq<Code>) -> bool {
    &&& forall|k: int|
        0 <= k < out.len() ==> (#[trigger] out[k]).attach_status == (k % 2 == 0)
            && out[k].detach_status == !out[k].attach_status
    &&& forall|k: int|
        0 < k < out.len() && k % 2 == 1 ==> (#[trigger] out[k]).tmux_session == out[k
            - 1].tmux_session
}

proof fn lemma_run_prefix(
    states: Seq<Code>,
    payloads: Seq<Seq<char>>,
    times: Seq<i64>,
    results: Seq<ListenerAction>,
    n: nat,
)
    requires
        is_run(states, payloads, times, results),
        !states[0].attach_status,
        n <= payloads.len(),
    ensures
        alternates(sent(states, results, n)),
        sent(states, results, n).len() == 0 ==> states[n as int] == states[0],
        sent(states, results, n).len() > 0 ==> states[n as int] == sent(states, results, n).last(),
        states[n as int].attach_status <==> sent(states, results, n).len() % 2 == 1,
    decreases n,
{
    if n > 0 {
        let m = (n - 1) as nat;
        lemma_run_prefix(states, payloads, times, results, m);
        let prev = sent(states, results, m);
        let i = m as int;
        assert(handled(&states[i], payloads[i], times[i], &states[i + 1], results[i]));
        let out = sent(states, results, n);
        if results[i] != ListenerAction::DetachDropped {
            assert(out == prev.push(states[i + 1]));
            assert forall|k: int| 0 <= k < out.len() implies (#[trigger] out[k]).attach_status == (
            k % 2 == 0) && out[k].detach_status == !out[k].attach_status by {
                if k < prev.len() {
                    assert(out[k] == prev[k]);
                }
            }
            assert forall|k: int|
                0 < k < out.len() && k % 2 == 1 implies (#[trigger] out[k]).tmux_session
                == out[k - 1].tmux_session by {
                if k < prev.len() {
                    assert(out[k] == prev[k]);
                    assert(out[k - 1] == prev[k - 1]);
                } else {
                    assert(out[k - 1] == prev.last());
                }
            }
        }
    }
}

/// Over any run that starts from a detached session, the sessions the
/// listener hands on alternate: attached, detached, attached, ... each
/// detached one naming the session attached just before it.
pub proof fn lemma_run_alternates(
    states: Seq<Code>,
    payloads: Seq<Seq<char>>,
    times: Seq<i64>,
    results: Seq<ListenerAction>,
)
    requires
        is_run(states, payloads, times, results),
        !states[0].attach_status,
    ensures
        alternates(sent(states, results, payloads.len())),
{
    lemma_run_prefix(states, payloads, times, results, payloads.len());
}

} // verus!
