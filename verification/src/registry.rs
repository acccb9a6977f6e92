//! The registry: an ordered list of rules, and the scan that runs them all.
//!
//! A scan evaluates every rule of the registry on the same log, in the order of
//! the registry, and collects what they find. It never stops early and never
//! fails; an empty result means that no rule found anything.

use crate::finding::{Finding, FindingView};
use crate::pattern::{regex_capture, regex_is_match, CaptureView};
use crate::rules::{
    BUILD_GROUP, CLASS_VERSION_SIGNATURE, FABRIC_JAVA_SIGNATURE, FORGE_JAVA_SIGNATURE,
    ID_RANGE_SIGNATURE, INTEL_DRIVER_PATTERN, JAVA_ARCHITECTURE_SIGNATURE, JAVA_VERSION_GROUP,
    JAVA_VERSION_PATTERN, M1_SIGNATURE, MACOS_JAVA_SIGNATURE, MISSING_MOD_SIGNATURE,
    MULTIMC_VERSION_PATTERN, ONEDRIVE_PATTERN, OUT_OF_MEMORY_SIGNATURE, PIXEL_FORMAT_SIGNATURE,
    PROGRAM_FILES_SIGNATURE, REQUIRES_FABRIC_SIGNATURE, SHADERS_MOD_SIGNATURE,
    WINDOWS_TEN_SIGNATURE, fabric_api_missing, forge_too_new_java, id_range_exceeded,
    intel_graphics_icd_dll, java_architecture, m1_failed_to_find_service_port,
    macos_too_new_java, major_java_version, multimc_in_onedrive_managed_folder,
    multimc_in_program_files, old_multimc_version, one_seventeen_java_too_new,
    out_of_memory_error, pixel_format_not_accelerated_win10, shadermod_optifine_conflict,
    spec_fabric_api_missing, spec_forge_too_new_java, spec_id_range_exceeded,
    spec_intel_graphics_icd_dll, spec_java_architecture, spec_m1_failed_to_find_service_port,
    spec_macos_too_new_java, spec_major_java_version, spec_multimc_in_onedrive_managed_folder,
    spec_multimc_in_program_files, spec_old_multimc_version, spec_one_seventeen_java_too_new,
    spec_out_of_memory_error, spec_pixel_format_not_accelerated_win10,
    spec_shadermod_optifine_conflict,
};
use crate::text::occurs_in;
use vstd::prelude::*;

verus! {

/// The name of a rule.
#[derive(Clone, Copy, Debug, PartialEq, Eq, Hash, Structural)]
pub enum RuleId {
    MultimcInProgramFiles,
    MacosTooNewJava,
    MultimcInOnedriveManagedFolder,
    MajorJavaVersion,
    ForgeTooNewJava,
    OneSeventeenJavaTooNew,
    M1FailedToFindServicePort,
    PixelFormatNotAcceleratedWin10,
    IntelGraphicsIcdDll,
    IdRangeExceeded,
    OutOfMemoryError,
    ShadermodOptifineConflict,
    FabricApiMissing,
    JavaArchitecture,
    OldMultimcVersion,
}

/// What the rule `rule` finds in `log`.
pub open spec fn spec_evaluate(rule: RuleId, log: Seq<char>) -> Option<FindingView> {
    match rule {
        RuleId::MultimcInProgramFiles => spec_multimc_in_program_files(log),
        RuleId::MacosTooNewJava => spec_macos_too_new_java(log),
        RuleId::MultimcInOnedriveManagedFolder => spec_multimc_in_onedrive_managed_folder(log),
        RuleId::MajorJavaVersion => spec_major_java_version(log),
        RuleId::ForgeTooNewJava => spec_forge_too_new_java(log),
        RuleId::OneSeventeenJavaTooNew => spec_one_seventeen_java_too_new(log),
        RuleId::M1FailedToFindServicePort => spec_m1_failed_to_find_service_port(log),
        RuleId::PixelFormatNotAcceleratedWin10 => spec_pixel_format_not_accelerated_win10(log),
        RuleId::IntelGraphicsIcdDll => spec_intel_graphics_icd_dll(log),
        RuleId::IdRangeExceeded => spec_id_range_exceeded(log),
        RuleId::OutOfMemoryError => spec_out_of_memory_error(log),
        RuleId::ShadermodOptifineConflict => spec_shadermod_optifine_conflict(log),
        RuleId::FabricApiMissing => spec_fabric_api_missing(log),
        RuleId::JavaArchitecture => spec_java_architecture(log),
        RuleId::OldMultimcVersion => spec_old_multimc_version(log),
    }
}

/// Whether the signature that `rule` looks for is in `log`: the literal, or
/// the literals, of a rule that searches for text; a match of the pattern of a
/// rule that asks a regular expression.
pub open spec fn trigger_present(rule: RuleId, log: Seq<char>) -> bool {
    match rule {
        RuleId::MultimcInProgramFiles => occurs_in(PROGRAM_FILES_SIGNATURE@, log),
        RuleId::MacosTooNewJava => occurs_in(MACOS_JAVA_SIGNATURE@, log),
        RuleId::MultimcInOnedriveManagedFolder => regex_is_match(ONEDRIVE_PATTERN@, log) == Some(
            true,
        ),
        RuleId::MajorJavaVersion => regex_capture(
            JAVA_VERSION_PATTERN@,
            log,
            JAVA_VERSION_GROUP@,
        ) is Group,
        RuleId::ForgeTooNewJava => occurs_in(FORGE_JAVA_SIGNATURE@, log),
        RuleId::OneSeventeenJavaTooNew => occurs_in(CLASS_VERSION_SIGNATURE@, log) || occurs_in(
            FABRIC_JAVA_SIGNATURE@,
            log,
        ),
        RuleId::M1FailedToFindServicePort => occurs_in(M1_SIGNATURE@, log),
        RuleId::PixelFormatNotAcceleratedWin10 => occurs_in(PIXEL_FORMAT_SIGNATURE@, log)
            && occurs_in(WINDOWS_TEN_SIGNATURE@, log),
        RuleId::IntelGraphicsIcdDll => regex_is_match(INTEL_DRIVER_PATTERN@, log) == Some(true),
        RuleId::IdRangeExceeded => occurs_in(ID_RANGE_SIGNATURE@, log),
        RuleId::OutOfMemoryError => occurs_in(OUT_OF_MEMORY_SIGNATURE@, log),
        RuleId::ShadermodOptifineConflict => occurs_in(SHADERS_MOD_SIGNATURE@, log),
        RuleId::FabricApiMissing => occurs_in(MISSING_MOD_SIGNATURE@, log) && occurs_in(
            REQUIRES_FABRIC_SIGNATURE@,
            log,
        ),
        RuleId::JavaArchitecture => occurs_in(JAVA_ARCHITECTURE_SIGNATURE@, log),
        RuleId::OldMultimcVersion => regex_capture(
            MULTIMC_VERSION_PATTERN@,
            log,
            BUILD_GROUP@,
        ) is Group,
    }
}

/// The rules that a scan runs unless told otherwise, in their order.
pub open spec fn standard_rules() -> Seq<RuleId> {
    seq![
        RuleId::MultimcInProgramFiles,
        RuleId::MacosTooNewJava,
        RuleId::MultimcInOnedriveManagedFolder,
        RuleId::ForgeTooNewJava,
        RuleId::OneSeventeenJavaTooNew,
        RuleId::M1FailedToFindServicePort,
        RuleId::PixelFormatNotAcceleratedWin10,
        RuleId::IntelGraphicsIcdDll,
        RuleId::IdRangeExceeded,
        RuleId::OutOfMemoryError,
        RuleId::ShadermodOptifineConflict,
        RuleId::FabricApiMissing,
        RuleId::JavaArchitecture,
        RuleId::OldMultimcVersion,
    ]
}

/// What a scan of `log` with `rules` returns: the finding of each rule that has
/// one, in the order of `rules`.
pub open spec fn spec_scan(rules: Seq<RuleId>, log: Seq<char>) -> Seq<FindingView>
    decreases rules.len(),
{
    if rules.len() == 0 {
        Seq::empty()
    } else {
        let earlier = spec_scan(rules.drop_last(), log);
        match spec_evaluate(rules.last(), log) {
            Some(finding) => earlier.push(finding),
            None => earlier,
        }
    }
}

/// Runs the rule `rule` on `log`.
pub fn evaluate(rule: RuleId, log: &str) -> (found: Option<Finding>)
    ensures
        found.deep_view() == spec_evaluate(rule, log@),
{
    match rule {
        RuleId::MultimcInProgramFiles => multimc_in_program_files(log),
        RuleId::MacosTooNewJava => macos_too_new_java(log),
        RuleId::MultimcInOnedriveManagedFolder => multimc_in_onedrive_managed_folder(log),
        RuleId::MajorJavaVersion => major_java_version(log),
        RuleId::ForgeTooNewJava => forge_too_new_java(log),
        RuleId::OneSeventeenJavaTooNew => one_seventeen_java_too_new(log),
        RuleId::M1FailedToFindServicePort => m1_failed_to_find_service_port(log),
        RuleId::PixelFormatNotAcceleratedWin10 => pixel_format_not_accelerated_win10(log),
        RuleId::IntelGraphicsIcdDll => intel_graphics_icd_dll(log),
        RuleId::IdRangeExceeded => id_range_exceeded(log),
        RuleId::OutOfMemoryError => out_of_memory_error(log),
        RuleId::ShadermodOptifineConflict => shadermod_optifine_conflict(log),
        RuleId::FabricApiMissing => fabric_api_missing(log),
        RuleId::JavaArchitecture => java_architecture(log),
        RuleId::OldMultimcVersion => old_multimc_version(log),
    }
}

/// An ordered list of rules.
#[derive(Clone, Debug, PartialEq, Eq)]
pub struct Registry {
    rules: Vec<RuleId>,
}

impl View for Registry {
    type V = Seq<RuleId>;

    closed spec fn view(&self) -> Seq<RuleId> {
        self.rules@
    }
}

impl Registry {
    /// A registry without rules.
    pub fn new() -> (registry: Registry)
        ensures
            registry@ == Seq::<RuleId>::empty(),
    {
        Registry { rules: Vec::new() }
    }

    /// The registry of [`standard_rules`].
    pub fn standard() -> (registry: Registry)
        ensures
            registry@ == standard_rules(),
    {
        let mut rules: Vec<RuleId> = Vec::new();
        rules.push(RuleId::MultimcInProgramFiles);
        rules.push(RuleId::MacosTooNewJava);
        rules.push(RuleId::MultimcInOnedriveManagedFolder);
        rules.push(RuleId::ForgeTooNewJava);
        rules.push(RuleId::OneSeventeenJavaTooNew);
        rules.push(RuleId::M1FailedToFindServicePort);
        rules.push(RuleId::PixelFormatNotAcceleratedWin10);
        rules.push(RuleId::IntelGraphicsIcdDll);
        rules.push(RuleId::IdRangeExceeded);
        rules.push(RuleId::OutOfMemoryError);
        rules.push(RuleId::ShadermodOptifineConflict);
        rules.push(RuleId::FabricApiMissing);
        rules.push(RuleId::JavaArchitecture);
        rules.push(RuleId::OldMultimcVersion);
        assert(rules@ =~= standard_rules());
        Registry { rules }
    }

    /// Adds `rule` behind the rules that are there. A rule may stand in a
    /// registry more than once; it then reports more than once.
    pub fn register(&mut self, rule: RuleId)
        ensures
            final(self)@ == old(self)@.push(rule),
    {
        self.rules.push(rule);
    }

    /// How many rules the registry holds.
    pub fn len(&self) -> (n: usize)
        ensures
            n == self@.len(),
    {
        self.rules.len()
    }

    /// The rules of the registry, in their order.
    pub fn rules(&self) -> (rules: &[RuleId])
        ensures
            rules@ == self@,
    {
        self.rules.as_slice()
    }

    /// The rule at position `index`, if there is one.
    pub fn rule(&self, index: usize) -> (rule: Option<RuleId>)
        ensures
            rule == (if index < self@.len() {
                Some(self@[index as int])
            } else {
                None
            }),
    {
        if index < self.rules.len() {
            Some(self.rules[index])
        } else {
            None
        }
    }

    /// Runs every rule of the registry on `log` and returns what they found, in
    /// the order of the registry.
    pub fn scan(&self, log: &str) -> (findings: Vec<Finding>)
        ensures
            findings.deep_view() == spec_scan(self@, log@),
            findings.len() == spec_scan(self@, log@).len(),
            forall|i: int|
                0 <= i < findings.len() ==> (#[trigger] findings[i])@ == spec_scan(self@, log@)[i],
    {
        let mut findings: Vec<Finding> = Vec::new();
        let mut next: usize = 0;
        assert(self@.subrange(0, 0) =~= Seq::<RuleId>::empty());
        assert(findings.deep_view() =~= Seq::<FindingView>::empty());
        while next < self.rules.len()
            invariant
                next <= self.rules.len(),
                findings.deep_view() == spec_scan(self@.subrange(0, next as int), log@),
            decreases self.rules.len() - next,
        {
            let ghost before = findings.deep_view();
            let found = evaluate(self.rules[next], log);
            proof {
                let done = self@.subrange(0, next + 1);
                assert(done.drop_last() =~= self@.subrange(0, next as int));
                assert(done.last() == self@[next as int]);
            }
            match found {
                Some(finding) => {
                    findings.push(finding);
                    assert(findings.deep_view() =~= before.push(finding.deep_view()));
                },
                None => {},
            }
            next += 1;
        }
        assert(self@.subrange(0, next as int) =~= self@);
        findings
    }
}

/// Scans `log` with the standard rules.
pub fn common_mistakes(log: &str) -> (findings: Vec<Finding>)
    ensures
        findings.deep_view() == spec_scan(standard_rules(), log@),
        findings.len() == spec_scan(standard_rules(), log@).len(),
        forall|i: int|
            0 <= i < findings.len() ==> (#[trigger] findings[i])@ == spec_scan(
                standard_rules(),
                log@,
            )[i],
{
    Registry::standard().scan(log)
}

} // verus!
