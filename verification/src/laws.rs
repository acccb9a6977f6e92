//! What holds of every rule and of every scan.

use crate::finding::{FindingView, Severity};
use crate::number::spec_parse_u32;
use crate::pattern::CaptureView;
use crate::registry::{spec_evaluate, spec_scan, standard_rules, trigger_present, RuleId};
use crate::rules::{
    spec_major_java_version_from, spec_old_multimc_version_from, spec_ram_amount_from,
    JAVA_VERSION_ADVICE_BEFORE, LARGEST_SENSIBLE_HEAP, PROGRAM_FILES_ADVICE,
    PROGRAM_FILES_SIGNATURE, SUPPORTED_JAVA,
};
use crate::text::{occurs_at, occurs_in};
use vstd::prelude::*;

verus! {

/// A scan is a function of the registry and the log: two scans with the same
/// rules on the same log return the same findings in the same order.
pub proof fn lemma_scan_is_deterministic(
    rules: Seq<RuleId>,
    log: Seq<char>,
    first: Seq<FindingView>,
    second: Seq<FindingView>,
)
    requires
        first == spec_scan(rules, log),
        second == spec_scan(rules, log),
    ensures
        first == second,
{
}

/// A rule whose signature is not in the log finds nothing.
pub proof fn lemma_no_trigger_no_finding(rule: RuleId, log: Seq<char>)
    requires
        !trigger_present(rule, log),
    ensures
        spec_evaluate(rule, log) is None,
{
}

/// A scan of a log that holds the signature of none of the rules returns
/// nothing.
pub proof fn lemma_no_trigger_empty_scan(rules: Seq<RuleId>, log: Seq<char>)
    requires
        forall|i: int| 0 <= i < rules.len() ==> !trigger_present(#[trigger] rules[i], log),
    ensures
        spec_scan(rules, log) == Seq::<FindingView>::empty(),
    decreases rules.len(),
{
    if rules.len() > 0 {
        lemma_no_trigger_empty_scan(rules.drop_last(), log);
        lemma_no_trigger_no_finding(rules.last(), log);
    }
}

/// A scan with the rules `first` and then the rules `second` returns what a
/// scan with `first` returns and then what a scan with `second` returns:
/// what a rule finds does not depend on the rules around it.
pub proof fn lemma_scan_of_concat(first: Seq<RuleId>, second: Seq<RuleId>, log: Seq<char>)
    ensures
        spec_scan(first + second, log) == spec_scan(first, log) + spec_scan(second, log),
    decreases second.len(),
{
    if second.len() == 0 {
        assert(first + second =~= first);
        assert(spec_scan(first, log) + spec_scan(second, log) =~= spec_scan(first, log));
    } else {
        assert((first + second).drop_last() =~= first + second.drop_last());
        lemma_scan_of_concat(first, second.drop_last(), log);
        assert(spec_scan(first + second, log) =~= spec_scan(first, log) + spec_scan(second, log));
    }
}

/// A scan returns at most one finding for each rule.
pub proof fn lemma_scan_length(rules: Seq<RuleId>, log: Seq<char>)
    ensures
        spec_scan(rules, log).len() <= rules.len(),
    decreases rules.len(),
{
    if rules.len() > 0 {
        lemma_scan_length(rules.drop_last(), log);
    }
}

/// A scan with the first `count` rules returns the beginning of what a scan
/// with all the rules returns.
pub proof fn lemma_scan_of_prefix(rules: Seq<RuleId>, log: Seq<char>, count: int)
    requires
        0 <= count <= rules.len(),
    ensures
        spec_scan(rules.subrange(0, count), log).is_prefix_of(spec_scan(rules, log)),
    decreases rules.len(),
{
    if count == rules.len() {
        assert(rules.subrange(0, count) =~= rules);
    } else {
        assert(rules.drop_last().subrange(0, count) =~= rules.subrange(0, count));
        lemma_scan_of_prefix(rules.drop_last(), log, count);
    }
}

/// What the rule at position `index` finds stands in the result of the scan,
/// behind what the rules before it found: no rule hides the finding of
/// another.
pub proof fn lemma_scan_keeps_finding(rules: Seq<RuleId>, log: Seq<char>, index: int) -> (at: int)
    requires
        0 <= index < rules.len(),
        spec_evaluate(rules[index], log) is Some,
    ensures
        at == spec_scan(rules.subrange(0, index), log).len(),
        0 <= at < spec_scan(rules, log).len(),
        spec_scan(rules, log)[at] == spec_evaluate(rules[index], log)->0,
{
    let upto = rules.subrange(0, index + 1);
    assert(upto.drop_last() =~= rules.subrange(0, index));
    assert(upto.last() == rules[index]);
    lemma_scan_of_prefix(rules, log, index + 1);
    let at = spec_scan(rules.subrange(0, index), log).len() as int;
    let part = spec_scan(upto, log);
    assert(part[at] == spec_evaluate(rules[index], log)->0);
    assert(spec_scan(rules, log).subrange(0, part.len() as int)[at] == part[at]);
    at
}

/// Rule independence: where two rules of a registry both find something, both
/// findings stand in the result of the scan, in the order of the two rules.
pub proof fn lemma_rules_are_independent(
    rules: Seq<RuleId>,
    log: Seq<char>,
    earlier: int,
    later: int,
) -> (at: (int, int))
    requires
        0 <= earlier < later < rules.len(),
        spec_evaluate(rules[earlier], log) is Some,
        spec_evaluate(rules[later], log) is Some,
    ensures
        0 <= at.0 < at.1 < spec_scan(rules, log).len(),
        spec_scan(rules, log)[at.0] == spec_evaluate(rules[earlier], log)->0,
        spec_scan(rules, log)[at.1] == spec_evaluate(rules[later], log)->0,
{
    let first = lemma_scan_keeps_finding(rules, log, earlier);
    let second = lemma_scan_keeps_finding(rules, log, later);
    let before_later = rules.subrange(0, later);
    assert(before_later[earlier] == rules[earlier]);
    assert(before_later.subrange(0, earlier) =~= rules.subrange(0, earlier));
    let inner = lemma_scan_keeps_finding(before_later, log, earlier);
    (first, second)
}

/// Every finding of a scan is what one of the rules found.
pub proof fn lemma_scan_holds_only_findings(rules: Seq<RuleId>, log: Seq<char>, at: int) -> (index:
    int)
    requires
        0 <= at < spec_scan(rules, log).len(),
    ensures
        0 <= index < rules.len(),
        spec_evaluate(rules[index], log) == Some(spec_scan(rules, log)[at]),
    decreases rules.len(),
{
    let earlier = spec_scan(rules.drop_last(), log);
    if at < earlier.len() {
        lemma_scan_holds_only_findings(rules.drop_last(), log, at)
    } else {
        rules.len() - 1
    }
}

/// A scan with the standard rules of a log that holds the signature of an
/// installation under Program Files reports it first: as critical, with the
/// advice to move the installation.
pub proof fn lemma_program_files_is_reported_first(log: Seq<char>)
    requires
        occurs_in(PROGRAM_FILES_SIGNATURE@, log),
    ensures
        spec_scan(standard_rules(), log).len() > 0,
        spec_scan(standard_rules(), log)[0] == (FindingView {
            severity: Severity::Critical,
            message: PROGRAM_FILES_ADVICE@,
        }),
{
    assert(standard_rules().subrange(0, 0) =~= Seq::<RuleId>::empty());
    let at = lemma_scan_keeps_finding(standard_rules(), log, 0);
}

/// The supported version of Java is not reported, though the pattern matched.
pub proof fn lemma_supported_java_is_not_reported()
    ensures
        spec_major_java_version_from(CaptureView::Group(SUPPORTED_JAVA@)) is None,
{
}

/// Any other captured version of Java is reported, and the message names it.
pub proof fn lemma_other_java_is_reported(major: Seq<char>)
    requires
        major != SUPPORTED_JAVA@,
    ensures
        spec_major_java_version_from(CaptureView::Group(major)) is Some,
        occurs_in(major, spec_major_java_version_from(CaptureView::Group(major))->0.message),
{
    let message = spec_major_java_version_from(CaptureView::Group(major))->0.message;
    let at = JAVA_VERSION_ADVICE_BEFORE@.len() as int;
    assert(message.subrange(at, at + major.len()) =~= major);
    assert(occurs_at(major, message, at));
}

/// A build number that cannot be read as a number of 32 bits, be it too large
/// or no number at all, gives no finding.
pub proof fn lemma_unreadable_build_is_not_reported(build: CaptureView, version: CaptureView)
    requires
        build matches CaptureView::Group(number) ==> spec_parse_u32(number) is None,
    ensures
        spec_old_multimc_version_from(build, version) is None,
{
}

/// A heap size that cannot be read as a number of 32 bits is not reported.
pub proof fn lemma_unreadable_heap_is_not_reported(size: Seq<char>)
    requires
        spec_parse_u32(size) is None,
    ensures
        spec_ram_amount_from(CaptureView::Group(size)) is None,
{
}

/// A heap is reported exactly when it is larger than the largest sensible
/// one, and then with its size.
pub proof fn lemma_heap_threshold(size: Seq<char>, megabytes: u32)
    requires
        spec_parse_u32(size) == Some(megabytes),
    ensures
        megabytes > LARGEST_SENSIBLE_HEAP ==> spec_ram_amount_from(CaptureView::Group(size))
            == Some(megabytes),
        megabytes <= LARGEST_SENSIBLE_HEAP ==> spec_ram_amount_from(CaptureView::Group(size))
            is None,
{
}

} // verus!
