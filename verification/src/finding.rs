//! Findings: what a rule reports when its signature is present in a log.

use vstd::prelude::*;

verus! {

/// How urgent a finding is.
#[derive(Clone, Copy, Debug, PartialEq, Eq, Structural)]
pub enum Severity {
    /// The problem stops the game or the launcher from working.
    Critical,
    /// The problem is likely to cause trouble.
    Warning,
    /// Worth knowing, seldom harmful.
    Notice,
}

/// The marker shown for `severity`, as a sequence of characters.
pub open spec fn glyph_of(severity: Severity) -> Seq<char> {
    match severity {
        Severity::Critical => "‼"@,
        Severity::Warning => "❗"@,
        Severity::Notice => "⚠"@,
    }
}

impl Severity {
    /// The short marker that labels a finding of this severity.
    pub fn glyph(self) -> (g: &'static str)
        ensures
            g@ == glyph_of(self),
    {
        match self {
            Severity::Critical => "‼",
            Severity::Warning => "❗",
            Severity::Notice => "⚠",
        }
    }
}

/// One diagnostic result: a severity and the advice for the user.
#[derive(Clone, Debug, PartialEq, Eq)]
pub struct Finding {
    pub severity: Severity,
    pub message: String,
}

/// The mathematical content of a [`Finding`].
pub struct FindingView {
    pub severity: Severity,
    pub message: Seq<char>,
}

impl View for Finding {
    type V = FindingView;

    open spec fn view(&self) -> FindingView {
        FindingView { severity: self.severity, message: self.message@ }
    }
}

impl DeepView for Finding {
    type V = FindingView;

    open spec fn deep_view(&self) -> FindingView {
        self@
    }
}

impl Finding {
    /// A finding of the given severity whose message is `advice`.
    pub fn new(severity: Severity, advice: &str) -> (f: Finding)
        ensures
            f@ == (FindingView { severity, message: advice@ }),
    {
        Finding { severity, message: advice.to_owned() }
    }
}

} // verus!
