use vstd::prelude::*;
use crate::interface::languages::{Language, LanguageExt};
use crate::text::{decimal, digit, push_char, push_decimal, signed_decimal};
use crate::traits::TimeKeeper;

verus! {

/// An editing session in tmux: where it runs, what it is editing, whether
/// it is attached, and when it started (or, once detached, how long it ran).
#[derive(Debug)]
pub struct Code {
    pub tmux_session: String,
    pub language: LanguageExt,
    pub file: String,
    pub github: String,
    pub attach_status: bool,
    pub detach_status: bool,
    pub duration: i64,
}

impl Code {
    /// Whether two sessions hold the same values.
    pub open spec fn same_as(&self, other: &Code) -> bool {
        &&& self.tmux_session@ == other.tmux_session@
        &&& self.language.current() == other.language.current()
        &&& self.language.tally() == other.language.tally()
        &&& self.file@ == other.file@
        &&& self.github@ == other.github@
        &&& self.attach_status == other.attach_status
        &&& self.detach_status == other.detach_status
        &&& self.duration == other.duration
    }

    /// A detached session about nothing, in the given detach state.
    pub open spec fn is_blank(&self, detach_status: bool) -> bool {
        &&& self.tmux_session@ == Seq::<char>::empty()
        &&& self.language.current() == Language::Unknown
        &&& self.language.tally() == Map::<Language, nat>::empty()
        &&& self.file@ == Seq::<char>::empty()
        &&& self.github@ == Seq::<char>::empty()
        &&& !self.attach_status
        &&& self.detach_status == detach_status
        &&& self.duration == 0
    }
}

impl Clone for Code {
    fn clone(&self) -> (res: Self)
        ensures
            res.same_as(self),
    {
        Code {
            tmux_session: self.tmux_session.clone(),
            language: self.language.clone(),
            file: self.file.clone(),
            github: self.github.clone(),
            attach_status: self.attach_status,
            detach_status: self.detach_status,
            duration: self.duration,
        }
    }
}

impl Default for Code {
    fn default() -> (res: Self)
        ensures
            res.is_blank(true),
    {
        Code::detach_new(true)
    }
}

impl Code {
    /// A session with the given values, started at `start` (seconds since
    /// the Unix epoch, read by the caller from the clock).
    pub fn new(
        tmux_session: &str,
        language: LanguageExt,
        file: &str,
        github: &str,
        attach_status: bool,
        detach_status: bool,
        start: i64,
    ) -> (res: Self)
        ensures
            res.tmux_session@ == tmux_session@,
            res.language.current() == language.current(),
            res.language.tally() == language.tally(),
            res.file@ == file@,
            res.github@ == github@,
            res.attach_status == attach_status,
            res.detach_status == detach_status,
            res.duration == start,
    {
        Code {
            tmux_session: String::from_str(tmux_session),
            language,
            file: String::from_str(file),
            github: String::from_str(github),
            attach_status,
            detach_status,
            duration: start,
        }
    }

    /// Whether the session names a tmux session.
    pub fn check_integ(&self) -> (res: bool)
        ensures
            res == (self.tmux_session@.len() > 0),
    {
        if self.tmux_session.as_str().is_empty() {
            return false;
        }
        true
    }

    /// A session about nothing, not attached, in the given detach state.
    pub fn detach_new(detach_status: bool) -> (res: Self)
        ensures
            res.is_blank(detach_status),
    {
        Code {
            tmux_session: String::new(),
            language: LanguageExt::default(),
            file: String::new(),
            github: String::new(),
            attach_status: false,
            detach_status,
            duration: 0,
        }
    }

    /// Marks the session detached at time `now` (seconds since the Unix
    /// epoch, read by the caller from the clock): its start time becomes the
    /// time it ran, `now` minus the start, wrapped to an `i64`.
    pub fn disconnect(&mut self, now: i64)
        ensures
            !final(self).attach_status,
            final(self).detach_status,
            final(self).duration == now.wrapping_sub(old(self).duration),
            i64::MIN <= now - old(self).duration <= i64::MAX ==> final(self).duration == now
                - old(self).duration,
            final(self).tmux_session == old(self).tmux_session,
            final(self).language == old(self).language,
            final(self).file == old(self).file,
            final(self).github == old(self).github,
    {
        self.attach_status = false;
        self.detach_status = true;
        let duration = self.duration;
        self.duration = now.wrapping_sub(duration);
    }

    /// Replaces the session's languages.
    pub fn language(&mut self, language: LanguageExt)
        ensures
            final(self).language == language,
            final(self).tmux_session == old(self).tmux_session,
            final(self).file == old(self).file,
            final(self).github == old(self).github,
            final(self).attach_status == old(self).attach_status,
            final(self).detach_status == old(self).detach_status,
            final(self).duration == old(self).duration,
    {
        self.language = language;
    }

    /// Replaces the name of the file being edited.
    pub fn file(&mut self, file: &str)
        ensures
            final(self).file@ == file@,
            final(self).tmux_session == old(self).tmux_session,
            final(self).language == old(self).language,
            final(self).github == old(self).github,
            final(self).attach_status == old(self).attach_status,
            final(self).detach_status == old(self).detach_status,
            final(self).duration == old(self).duration,
    {
        self.file = String::from_str(file)
    }

    /// Makes this session a copy of `code`.
    pub fn update(&mut self, code: &Self)
        ensures
            final(self).same_as(code),
    {
        self.tmux_session = code.tmux_session.clone();
        self.language = code.language.clone();
        self.file = code.file.clone();
        self.github = code.github.clone();
        self.attach_status = code.attach_status;
        self.detach_status = code.detach_status;
        self.duration = code.duration;
    }
}

/// `a / b` rounded toward zero, as Rust divides integers (`b > 0`).
pub open spec fn div_trunc(a: int, b: int) -> int {
    if a >= 0 {
        a / b
    } else {
        -((-a) / b)
    }
}

/// The remainder of `div_trunc`, with the sign of `a`.
pub open spec fn rem_trunc(a: int, b: int) -> int {
    a - b * div_trunc(a, b)
}

/// `i` written in at least two places, zero-padded (`{:02}`).
pub open spec fn pad2(i: int) -> Seq<char> {
    if 0 <= i < 10 {
        seq!['0'] + decimal(i as nat)
    } else {
        signed_decimal(i)
    }
}

/// How long a session ran, for `d` seconds: seconds alone under a minute,
/// `m:ss` under an hour, `h:mm:ss` otherwise.
pub open spec fn spec_elapsed(d: int) -> Seq<char> {
    if 0 <= d <= 59 {
        "Coded for "@ + decimal(d as nat) + " secs"@
    } else if 60 <= d <= 3599 {
        "Coded for "@ + decimal((d / 60) as nat) + ":"@ + pad2(d % 60)
    } else {
        "Coded for "@ + signed_decimal(div_trunc(d, 3600)) + ":"@ + pad2(
            div_trunc(rem_trunc(d, 3600), 60),
        ) + ":"@ + pad2(rem_trunc(d, 60))
    }
}

/// A number under a hundred, zero-padded, is written with exactly two
/// digits: its tens and its units.
pub proof fn lemma_pad2_two_digits(k: int)
    requires
        0 <= k < 100,
    ensures
        pad2(k) == seq![digit((k / 10) as nat), digit((k % 10) as nat)],
{
    assert(digit(0) == '0');
    if k >= 10 {
        assert(decimal((k / 10) as nat) == seq![digit((k / 10) as nat)]);
        assert(decimal(k as nat) == decimal((k / 10) as nat).push(digit((k % 10) as nat)));
    }
    assert(pad2(k) =~= seq![digit((k / 10) as nat), digit((k % 10) as nat)]);
}

/// Under an hour, from one minute on, the time is written as the minutes,
/// a colon and the seconds in exactly two digits (tens and units), however
/// many minutes there are.
pub proof fn lemma_elapsed_minutes(d: int)
    requires
        60 <= d <= 3599,
    ensures
        spec_elapsed(d) == "Coded for "@ + decimal((d / 60) as nat) + ":"@ + seq![
            digit(((d % 60) / 10) as nat),
            digit((d % 10) as nat),
        ],
{
    lemma_pad2_two_digits(d % 60);
    assert((d % 60) % 10 == d % 10) by (nonlinear_arith)
        requires 0 <= d,
    {
    }
}

/// From one hour on, the time is written as the hours, then the minutes
/// past the hour and the seconds past the minute, each in exactly two
/// digits (tens and units) after a colon.
pub proof fn lemma_elapsed_hours(d: int)
    requires
        3600 <= d,
    ensures
        spec_elapsed(d) == "Coded for "@ + decimal((d / 3600) as nat) + ":"@ + seq![
            digit(((d % 3600) / 600) as nat),
            digit((((d % 3600) / 60) % 10) as nat),
        ] + ":"@ + seq![digit(((d % 60) / 10) as nat), digit((d % 10) as nat)],
{
    assert(rem_trunc(d, 3600) == d % 3600) by (nonlinear_arith)
        requires 0 <= d,
    {
    }
    assert(rem_trunc(d, 60) == d % 60) by (nonlinear_arith)
        requires 0 <= d,
    {
    }
    assert(((d % 3600) / 60) / 10 == (d % 3600) / 600) by (nonlinear_arith)
        requires 0 <= d,
    {
    }
    assert((d % 60) % 10 == d % 10) by (nonlinear_arith)
        requires 0 <= d,
    {
    }
    assert((d % 3600) / 60 < 60) by (nonlinear_arith)
        requires 0 <= d,
    {
    }
    lemma_pad2_two_digits((d % 3600) / 60);
    lemma_pad2_two_digits(d % 60);
}

/// Appends `pad2(k)` for `0 <= k < 100`.
fn push_pad2(out: &mut String, k: u64)
    requires
        k < 100,
    ensures
        final(out)@ == old(out)@ + pad2(k as int),
{
    if k < 10 {
        push_char(out, '0');
    }
    push_decimal(out, k);
}

/// Appends `pad2(-k)` for `0 <= k < 100`.
fn push_pad2_neg(out: &mut String, k: u64)
    requires
        k < 100,
    ensures
        final(out)@ == old(out)@ + pad2(-k),
{
    if k == 0 {
        push_pad2(out, 0);
    } else {
        push_char(out, '-');
        push_decimal(out, k);
    }
}

impl TimeKeeper for Code {
    /// How long the session ran, from its `duration` in seconds (see
    /// `spec_elapsed`).
    fn elapsed(&self) -> (res: String)
        ensures
            res@ == spec_elapsed(self.duration as int),
    {
        let d = self.duration;
        let mut out = String::from_str("Coded for ");
        if 0 <= d && d <= 59 {
            push_decimal(&mut out, d as u64);
            out.append(" secs");
        } else if 60 <= d && d <= 3599 {
            let u = d as u64;
            push_decimal(&mut out, u / 60);
            out.append(":");
            push_pad2(&mut out, u % 60);
        } else if d > 0 {
            let u = d as u64;
            push_decimal(&mut out, u / 3600);
            out.append(":");
            push_pad2(&mut out, (u % 3600) / 60);
            out.append(":");
            push_pad2(&mut out, u % 60);
        } else {
            let m: u64 = if d == i64::MIN {
                9223372036854775808u64
            } else {
                (-d) as u64
            };
            assert(m as int == -(d as int));
            let h = m / 3600;
            if h > 0 {
                push_char(&mut out, '-');
            }
            push_decimal(&mut out, h);
            out.append(":");
            push_pad2_neg(&mut out, (m % 3600) / 60);
            out.append(":");
            push_pad2_neg(&mut out, m % 60);
            proof {
                assert(div_trunc(d as int, 3600) == -(h as int));
                assert(rem_trunc(d as int, 3600) == -((m % 3600) as int));
                assert(div_trunc(rem_trunc(d as int, 3600), 60) == -(((m % 3600) / 60) as int));
                assert(rem_trunc(d as int, 60) == -((m % 60) as int));
            }
        }
        out
    }
}

} // verus!
