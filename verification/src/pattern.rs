//! Regular expressions, as the `regex` crate evaluates them.
//!
//! Nothing here is proved: each function hands its arguments to `regex` and
//! gives the answer a name. What the names mean is whatever `regex` computes;
//! the rest of the library only relies on the answer being a function of the
//! pattern and the text.

use regex::Regex;
use vstd::prelude::*;

verus! {

/// What a search for the leftmost match of a pattern yields for one of its
/// capture groups.
#[derive(Clone, Debug, PartialEq, Eq)]
pub enum Capture {
    /// The pattern is not a regular expression that `regex` accepts.
    BadPattern,
    /// The pattern matches nowhere in the text.
    NoMatch,
    /// The pattern matches, but the group took no part in the leftmost match,
    /// or the pattern has no group of that name.
    NoGroup,
    /// The part of the text that the group matched.
    Group(String),
}

/// The mathematical content of a [`Capture`].
pub enum CaptureView {
    BadPattern,
    NoMatch,
    NoGroup,
    Group(Seq<char>),
}

impl View for Capture {
    type V = CaptureView;

    open spec fn view(&self) -> CaptureView {
        match self {
            Capture::BadPattern => CaptureView::BadPattern,
            Capture::NoMatch => CaptureView::NoMatch,
            Capture::NoGroup => CaptureView::NoGroup,
            Capture::Group(text) => CaptureView::Group(text@),
        }
    }
}

/// Whether `pattern` matches somewhere in `text`; `None` when `pattern` is not
/// a regular expression that `regex` accepts.
pub uninterp spec fn regex_is_match(pattern: Seq<char>, text: Seq<char>) -> Option<bool>;

/// The leftmost match of `pattern` in `text`, as [`CaptureView::Group`]; never
/// [`CaptureView::NoGroup`].
pub uninterp spec fn regex_find(pattern: Seq<char>, text: Seq<char>) -> CaptureView;

/// What the group named `group` holds in the leftmost match of `pattern` in
/// `text`.
pub uninterp spec fn regex_capture(
    pattern: Seq<char>,
    text: Seq<char>,
    group: Seq<char>,
) -> CaptureView;

/// Compiles `pattern` with `Regex::new` and asks `Regex::is_match` whether it
/// matches somewhere in `text`. The contract only names the answer.
#[verifier::external_body]
pub(crate) fn is_match(pattern: &str, text: &str) -> (answer: Option<bool>)
    ensures
        answer == regex_is_match(pattern@, text@),
{
    match Regex::new(pattern) {
        Ok(compiled) => Some(compiled.is_match(text)),
        Err(_) => None,
    }
}

/// Compiles `pattern` with `Regex::new` and copies out the text of the match
/// that `Regex::find` returns for `text`. The contract only names the answer.
#[verifier::external_body]
pub(crate) fn find(pattern: &str, text: &str) -> (found: Capture)
    ensures
        found@ == regex_find(pattern@, text@),
{
    match Regex::new(pattern) {
        Ok(compiled) => match compiled.find(text) {
            Some(whole) => Capture::Group(whole.as_str().to_owned()),
            None => Capture::NoMatch,
        },
        Err(_) => Capture::BadPattern,
    }
}

/// Compiles `pattern` with `Regex::new`, searches `text` with
/// `Regex::captures` and copies out what `Captures::name` returns for `group`.
/// The contract only names the answer.
#[verifier::external_body]
pub(crate) fn capture(pattern: &str, text: &str, group: &str) -> (found: Capture)
    ensures
        found@ == regex_capture(pattern@, text@, group@),
{
    match Regex::new(pattern) {
        Ok(compiled) => match compiled.captures(text) {
            Some(groups) => match groups.name(group) {
                Some(part) => Capture::Group(part.as_str().to_owned()),
                None => Capture::NoGroup,
            },
            None => Capture::NoMatch,
        },
        Err(_) => Capture::BadPattern,
    }
}

} // verus!
