//! Helper traits: pattern matching, lenient unwrapping, truncation and
//! elapsed-time formatting.

use vstd::prelude::*;

verus! {

/// Whether `regex::Regex::new` accepts `pattern`.
pub uninterp spec fn regex_valid(pattern: Seq<char>) -> bool;

/// Whether the regex compiled from `pattern` matches somewhere in `text`
/// (`regex::Regex::is_match`).
pub uninterp spec fn regex_match(pattern: Seq<char>, text: Seq<char>) -> bool;

/// Compiles `pattern` with `regex::Regex::new` and, when it compiles, asks
/// `regex::Regex::is_match` about `text`. Claimed: the result is present
/// exactly when the pattern compiles, and then it is the named match
/// result for the pattern and the text. What those are is not stated.
#[verifier::external_body]
pub(crate) fn regex_is_match(pattern: &str, text: &str) -> (res: Option<bool>)
    ensures
        res is Some <==> regex_valid(pattern@),
        res matches Some(b) ==> b == regex_match(pattern@, text@),
{
    match regex::Regex::new(pattern) {
        Ok(re) => Some(re.is_match(text)),
        Err(_) => None,
    }
}

/// Matching text against a regular expression.
pub trait RegexMatcher {
    /// Whether `pattern` matches somewhere in the text; the pattern must be
    /// a valid regular expression.
    fn regex(&self, pattern: &str) -> bool
        requires
            regex_valid(pattern@),
    ;
}

impl RegexMatcher for String {
    fn regex(&self, pattern: &str) -> (res: bool)
        ensures
            res == regex_match(pattern@, self@),
    {
        match regex_is_match(pattern, self.as_str()) {
            Some(b) => b,
            None => false,
        }
    }
}

/// Unwrapping an `Option`, falling back to the type's default value.
pub trait UnwrapAndLog<T> {
    fn unwrap_log(self, msg: &str) -> T;
}

impl<T: Default> UnwrapAndLog<T> for Option<T> {
    /// The held value, or `T::default()` when there is none; `msg` says
    /// what was missing.
    fn unwrap_log(self, msg: &str) -> (res: T)
        ensures
            self matches Some(v) ==> res == v,
            self is None ==> call_ensures(T::default, (), res),
    {
        match self {
            Some(res) => res,
            None => T::default(),
        }
    }
}

/// Unwrapping an `Option`, falling back to a given value.
pub trait UnwrapAndLogOr<T> {
    fn unwrap_log_or(self, msg: &str, value: T) -> T;
}

impl<T> UnwrapAndLogOr<T> for Option<T> {
    /// The held value, or `value` when there is none; `msg` says what was
    /// missing.
    fn unwrap_log_or(self, msg: &str, value: T) -> (res: T)
        ensures
            res == (match self {
                Some(v) => v,
                None => value,
            }),
    {
        match self {
            Some(res) => res,
            None => value,
        }
    }
}

/// Unwrapping a `Result` that is known to be `Ok`.
pub trait UnwrapAndLogRes<T> {
    /// Whether the value can be unwrapped.
    spec fn is_unwrappable(&self) -> bool;

    fn unwrap_log(self) -> T
        requires
            self.is_unwrappable(),
    ;
}

impl<T, U: std::fmt::Debug> UnwrapAndLogRes<T> for Result<T, U> {
    open spec fn is_unwrappable(&self) -> bool {
        self is Ok
    }

    /// The held value; an `Err` is not accepted.
    fn unwrap_log(self) -> (res: T)
        ensures
            self matches Ok(v) && res == v,
    {
        self.unwrap()
    }
}


/// The first `max` characters of `s`, or all of `s` when it is shorter.
pub open spec fn truncated(s: Seq<char>, max: nat) -> Seq<char> {
    if s.len() > max {
        s.take(max as int)
    } else {
        s
    }
}

/// Shortening text to a number of characters.
pub trait RiseFormat {
    fn truncate(&self, max_length: usize) -> &str;
}

impl RiseFormat for String {
    /// The first `max_length` characters (not bytes) of the text.
    fn truncate(&self, max_length: usize) -> (res: &str)
        ensures
            res@ == truncated(self@, max_length as nat),
    {
        let s = self.as_str();
        if s.unicode_len() > max_length {
            s.substring_char(0, max_length)
        } else {
            s
        }
    }
}

impl RiseFormat for &str {
    /// The first `max_length` characters (not bytes) of the text.
    fn truncate(&self, max_length: usize) -> (res: &str)
        ensures
            res@ == truncated(self@, max_length as nat),
    {
        if self.unicode_len() > max_length {
            self.substring_char(0, max_length)
        } else {
            *self
        }
    }
}

/// Saying how long something has been going on.
pub trait TimeKeeper {
    fn elapsed(&self) -> String;
}

} // verus!
