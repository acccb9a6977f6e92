//! The rules: one function per known error signature.
//!
//! A rule reads the whole log and gives at most one finding. No rule looks at
//! what another rule found. A rule that asks a regular expression comes with a
//! second function, whose name ends in `_from`: it takes what the search
//! returned and decides on the finding.

use crate::finding::{Finding, FindingView, Severity};
use crate::number::{parse_u32, spec_parse_u32};
use crate::pattern::{capture, is_match, regex_capture, regex_is_match, Capture, CaptureView};
use crate::text::{contains, occurs_in, same_text};
use vstd::prelude::*;
use vstd::string::StringExecFns;

verus! {

/// The finding of `severity` with message `advice` if `present`, none otherwise.
pub open spec fn finding_when(present: bool, severity: Severity, advice: Seq<char>) -> Option<
    FindingView,
> {
    if present {
        Some(FindingView { severity, message: advice })
    } else {
        None
    }
}

fn report_when(present: bool, severity: Severity, advice: &str) -> (found: Option<Finding>)
    ensures
        found.deep_view() == finding_when(present, severity, advice@),
{
    if present {
        Some(Finding::new(severity, advice))
    } else {
        None
    }
}

/// `before`, then `value`, then `after`.
fn fill_in(before: &str, value: &str, after: &str) -> (message: String)
    ensures
        message@ == before@ + value@ + after@,
{
    let mut message = String::from_str(before);
    message.append(value);
    message.append(after);
    message
}

pub const PROGRAM_FILES_SIGNATURE: &'static str = "Minecraft folder is:\nC:/Program Files";

pub const PROGRAM_FILES_ADVICE: &'static str =
    "Your MultiMC installation is in Program Files, where MultiMC doesn't have permission to write.\n\
    You should move it somewhere else, like your Desktop.";

/// What [`multimc_in_program_files`] finds in `log`.
pub open spec fn spec_multimc_in_program_files(log: Seq<char>) -> Option<FindingView> {
    finding_when(
        occurs_in(PROGRAM_FILES_SIGNATURE@, log),
        Severity::Critical,
        PROGRAM_FILES_ADVICE@,
    )
}

/// MultiMC is installed under Program Files, where it may not write.
pub fn multimc_in_program_files(log: &str) -> (found: Option<Finding>)
    ensures
        found.deep_view() == spec_multimc_in_program_files(log@),
{
    report_when(contains(log, PROGRAM_FILES_SIGNATURE), Severity::Critical, PROGRAM_FILES_ADVICE)
}

pub const MACOS_JAVA_SIGNATURE: &'static str =
    "Terminating app due to uncaught exception 'NSInternalInconsistencyException', \
    reason: 'NSWindow drag regions should only be invalidated on the Main Thread!'";

pub const MACOS_JAVA_ADVICE: &'static str =
    "You are using too new a Java version. Please follow the steps on this wiki page to install 8u241: \
    https://github.com/MultiMC/MultiMC5/wiki/Java-on-macOS";

/// What [`macos_too_new_java`] finds in `log`.
pub open spec fn spec_macos_too_new_java(log: Seq<char>) -> Option<FindingView> {
    finding_when(occurs_in(MACOS_JAVA_SIGNATURE@, log), Severity::Critical, MACOS_JAVA_ADVICE@)
}

/// On macOS, a Java too new for the game's windowing code.
pub fn macos_too_new_java(log: &str) -> (found: Option<Finding>)
    ensures
        found.deep_view() == spec_macos_too_new_java(log@),
{
    report_when(contains(log, MACOS_JAVA_SIGNATURE), Severity::Critical, MACOS_JAVA_ADVICE)
}

pub const ONEDRIVE_PATTERN: &'static str = r"Minecraft folder is:\nC:/.+/.+/OneDrive";

pub const ONEDRIVE_ADVICE: &'static str =
    "MultiMC is located in a folder managed by OneDrive. OneDrive messes with Minecraft folders while the game is running, \
    and this often leads to crashes.\nYou should move the MultiMC folder to a different folder.";

/// What [`multimc_in_onedrive_managed_folder_from`] makes of the answer
/// `matched` to whether [`ONEDRIVE_PATTERN`] matches.
pub open spec fn spec_multimc_in_onedrive_managed_folder_from(matched: Option<bool>) -> Option<
    FindingView,
> {
    finding_when(matched == Some(true), Severity::Warning, ONEDRIVE_ADVICE@)
}

/// What [`multimc_in_onedrive_managed_folder`] finds in `log`.
pub open spec fn spec_multimc_in_onedrive_managed_folder(log: Seq<char>) -> Option<FindingView> {
    spec_multimc_in_onedrive_managed_folder_from(regex_is_match(ONEDRIVE_PATTERN@, log))
}

/// The finding for a log in which [`ONEDRIVE_PATTERN`] did or did not match.
pub fn multimc_in_onedrive_managed_folder_from(matched: Option<bool>) -> (found: Option<Finding>)
    ensures
        found.deep_view() == spec_multimc_in_onedrive_managed_folder_from(matched),
{
    let present = match matched {
        Some(answer) => answer,
        None => false,
    };
    report_when(present, Severity::Warning, ONEDRIVE_ADVICE)
}

/// MultiMC is installed in a folder that OneDrive keeps in sync.
pub fn multimc_in_onedrive_managed_folder(log: &str) -> (found: Option<Finding>)
    ensures
        found.deep_view() == spec_multimc_in_onedrive_managed_folder(log@),
{
    multimc_in_onedrive_managed_folder_from(is_match(ONEDRIVE_PATTERN, log))
}

pub const JAVA_VERSION_PATTERN: &'static str =
    r"Java is version (1.)??(?P<ver>[6-9]|[1-9][0-9])+(\..+)??,";

/// The group of [`JAVA_VERSION_PATTERN`] that holds the major version.
pub const JAVA_VERSION_GROUP: &'static str = "ver";

/// The one major version of Java that is not reported.
pub const SUPPORTED_JAVA: &'static str = "8";

pub const JAVA_VERSION_ADVICE_BEFORE: &'static str = "You're using Java ";

pub const JAVA_VERSION_ADVICE_AFTER: &'static str =
    ". Versions other than Java 8 are not designed to be used with Minecraft and may cause issues. \
    [See here for help installing the correct version.](https://github.com/MultiMC/MultiMC5/wiki/Using-the-right-Java)";

/// What [`major_java_version_from`] makes of `version`, the major version
/// that was captured.
pub open spec fn spec_major_java_version_from(version: CaptureView) -> Option<FindingView> {
    match version {
        CaptureView::Group(major) => finding_when(
            major != SUPPORTED_JAVA@,
            Severity::Warning,
            JAVA_VERSION_ADVICE_BEFORE@ + major + JAVA_VERSION_ADVICE_AFTER@,
        ),
        _ => None,
    }
}

/// What [`major_java_version`] finds in `log`.
pub open spec fn spec_major_java_version(log: Seq<char>) -> Option<FindingView> {
    spec_major_java_version_from(regex_capture(JAVA_VERSION_PATTERN@, log, JAVA_VERSION_GROUP@))
}

/// The finding for a log whose Java version line gave `version`: none for
/// [`SUPPORTED_JAVA`], and none where no version was captured; for any other
/// version a warning that names it.
pub fn major_java_version_from(version: &Capture) -> (found: Option<Finding>)
    ensures
        found.deep_view() == spec_major_java_version_from(version@),
{
    match version {
        Capture::Group(major) => {
            if same_text(major.as_str(), SUPPORTED_JAVA) {
                None
            } else {
                Some(
                    Finding {
                        severity: Severity::Warning,
                        message: fill_in(
                            JAVA_VERSION_ADVICE_BEFORE,
                            major.as_str(),
                            JAVA_VERSION_ADVICE_AFTER,
                        ),
                    },
                )
            }
        },
        _ => None,
    }
}

/// The game runs on a major version of Java other than 8.
pub fn major_java_version(log: &str) -> (found: Option<Finding>)
    ensures
        found.deep_view() == spec_major_java_version(log@),
{
    major_java_version_from(&capture(JAVA_VERSION_PATTERN, log, JAVA_VERSION_GROUP))
}

pub const FORGE_JAVA_SIGNATURE: &'static str =
    "java.lang.ClassCastException: class jdk.internal.loader.ClassLoaders$AppClassLoader \
    cannot be cast to class java.net.URLClassLoader";

pub const FORGE_JAVA_ADVICE: &'static str =
    "The version of Minecraft you are playing does not support using modern versions of Java. \
    [Please use Java 8, click here for help.](https://github.com/MultiMC/MultiMC5/wiki/Using-the-right-Java)";

/// What [`forge_too_new_java`] finds in `log`.
pub open spec fn spec_forge_too_new_java(log: Seq<char>) -> Option<FindingView> {
    finding_when(occurs_in(FORGE_JAVA_SIGNATURE@, log), Severity::Critical, FORGE_JAVA_ADVICE@)
}

/// An old Forge on a Java whose class loader it cannot use.
pub fn forge_too_new_java(log: &str) -> (found: Option<Finding>)
    ensures
        found.deep_view() == spec_forge_too_new_java(log@),
{
    report_when(contains(log, FORGE_JAVA_SIGNATURE), Severity::Critical, FORGE_JAVA_ADVICE)
}

pub const CLASS_VERSION_SIGNATURE: &'static str =
    "java.lang.UnsupportedClassVersionError: net/minecraft/client/main/Main";

pub const FABRIC_JAVA_SIGNATURE: &'static str = "fabric requires {java @ [>=16]}";

pub const JAVA_SIXTEEN_ADVICE: &'static str =
    "You are playing a version of Minecraft that requires Java 16, but are using an older Java version. \n\
    Please install Java 16 you can find downloads [here](https://www.azul.com/downloads/?version=java-16-sts&architecture=x86-64-bit&package=jre#download-openjdk))\n\
    On Windows: Download the .msi file. After installation you may have to update MultiMC to detect the new Java version, to do so open the settings and \
    change Update Channel to 'Development', then update MultiMC.\n\
    Open the MultiMC Java settings and make sure Java 8 is still selected as default for more help with that run `-sjava`.\
    Then edit your 1.17 instance settings, open the Java tab, check 'Java Installation', click 'Auto-detect..' and select Java 16.";

/// What [`one_seventeen_java_too_new`] finds in `log`.
pub open spec fn spec_one_seventeen_java_too_new(log: Seq<char>) -> Option<FindingView> {
    finding_when(
        occurs_in(CLASS_VERSION_SIGNATURE@, log) || occurs_in(FABRIC_JAVA_SIGNATURE@, log),
        Severity::Critical,
        JAVA_SIXTEEN_ADVICE@,
    )
}

/// Minecraft 1.17 on a Java older than 16: either of two signatures tells.
pub fn one_seventeen_java_too_new(log: &str) -> (found: Option<Finding>)
    ensures
        found.deep_view() == spec_one_seventeen_java_too_new(log@),
{
    report_when(
        contains(log, CLASS_VERSION_SIGNATURE) || contains(log, FABRIC_JAVA_SIGNATURE),
        Severity::Critical,
        JAVA_SIXTEEN_ADVICE,
    )
}

pub const M1_SIGNATURE: &'static str =
    "java.lang.IllegalStateException: GLFW error before init: [0x10008]Cocoa: \
    Failed to find service port for display";

pub const M1_ADVICE: &'static str =
    "You seem to be using an Apple M1 Mac with an incompatible version of Forge. \
    Add the following to your launch arguments as a workaround: `-Dfml.earlyprogresswindow=false`";

/// What [`m1_failed_to_find_service_port`] finds in `log`.
pub open spec fn spec_m1_failed_to_find_service_port(log: Seq<char>) -> Option<FindingView> {
    finding_when(occurs_in(M1_SIGNATURE@, log), Severity::Critical, M1_ADVICE@)
}

/// Forge's early progress window fails on an Apple M1.
pub fn m1_failed_to_find_service_port(log: &str) -> (found: Option<Finding>)
    ensures
        found.deep_view() == spec_m1_failed_to_find_service_port(log@),
{
    report_when(contains(log, M1_SIGNATURE), Severity::Critical, M1_ADVICE)
}

pub const PIXEL_FORMAT_SIGNATURE: &'static str =
    "org.lwjgl.LWJGLException: Pixel format not accelerated";

pub const WINDOWS_TEN_SIGNATURE: &'static str = "Operating System: Windows 10";

/// The advice of both rules on Intel graphics.
pub const INTEL_GPU_ADVICE: &'static str =
    "You seem to be using an Intel GPU that is not supported on Windows 10. \
    You will need to install an older version of Java, \
    [see here for help](https://github.com/MultiMC/MultiMC5/wiki/Unsupported-Intel-GPUs)";

/// What [`pixel_format_not_accelerated_win10`] finds in `log`.
pub open spec fn spec_pixel_format_not_accelerated_win10(log: Seq<char>) -> Option<FindingView> {
    finding_when(
        occurs_in(PIXEL_FORMAT_SIGNATURE@, log) && occurs_in(WINDOWS_TEN_SIGNATURE@, log),
        Severity::Warning,
        INTEL_GPU_ADVICE@,
    )
}

/// An Intel GPU without a driver for Windows 10: both signatures must be
/// there.
pub fn pixel_format_not_accelerated_win10(log: &str) -> (found: Option<Finding>)
    ensures
        found.deep_view() == spec_pixel_format_not_accelerated_win10(log@),
{
    report_when(
        contains(log, PIXEL_FORMAT_SIGNATURE) && contains(log, WINDOWS_TEN_SIGNATURE),
        Severity::Warning,
        INTEL_GPU_ADVICE,
    )
}

pub const INTEL_DRIVER_PATTERN: &'static str =
    r"C  \[(ig[0-9]+icd[0-9]+\.dll)\+(0x[0-9a-f]+)\]";

/// What [`intel_graphics_icd_dll_from`] makes of the answer `matched` to
/// whether [`INTEL_DRIVER_PATTERN`] matches.
pub open spec fn spec_intel_graphics_icd_dll_from(matched: Option<bool>) -> Option<FindingView> {
    finding_when(matched == Some(true), Severity::Warning, INTEL_GPU_ADVICE@)
}

/// What [`intel_graphics_icd_dll`] finds in `log`.
pub open spec fn spec_intel_graphics_icd_dll(log: Seq<char>) -> Option<FindingView> {
    spec_intel_graphics_icd_dll_from(regex_is_match(INTEL_DRIVER_PATTERN@, log))
}

/// The finding for a log in which [`INTEL_DRIVER_PATTERN`] did or did not
/// match.
pub fn intel_graphics_icd_dll_from(matched: Option<bool>) -> (found: Option<Finding>)
    ensures
        found.deep_view() == spec_intel_graphics_icd_dll_from(matched),
{
    let present = match matched {
        Some(answer) => answer,
        None => false,
    };
    report_when(present, Severity::Warning, INTEL_GPU_ADVICE)
}

/// A crash inside the Intel graphics driver.
pub fn intel_graphics_icd_dll(log: &str) -> (found: Option<Finding>)
    ensures
        found.deep_view() == spec_intel_graphics_icd_dll(log@),
{
    intel_graphics_icd_dll_from(is_match(INTEL_DRIVER_PATTERN, log))
}

pub const ID_RANGE_SIGNATURE: &'static str =
    "java.lang.RuntimeException: Invalid id 4096 - maximum id range exceeded.";

pub const ID_RANGE_ADVICE: &'static str =
    "You've exceeded the hardcoded ID Limit. Remove some mods, or install \
    [JustEnoughIDs](https://www.curseforge.com/minecraft/mc-mods/jeid)";

/// What [`id_range_exceeded`] finds in `log`.
pub open spec fn spec_id_range_exceeded(log: Seq<char>) -> Option<FindingView> {
    finding_when(occurs_in(ID_RANGE_SIGNATURE@, log), Severity::Critical, ID_RANGE_ADVICE@)
}

/// More block or item ids than the game has room for.
pub fn id_range_exceeded(log: &str) -> (found: Option<Finding>)
    ensures
        found.deep_view() == spec_id_range_exceeded(log@),
{
    report_when(contains(log, ID_RANGE_SIGNATURE), Severity::Critical, ID_RANGE_ADVICE)
}

pub const OUT_OF_MEMORY_SIGNATURE: &'static str = "java.lang.OutOfMemoryError";

pub const OUT_OF_MEMORY_ADVICE: &'static str =
    "You've run out of memory. You should allocate more, although the exact value depends on how many mods you have installed. \
    [Click this link for a guide.](https://cdn.discordapp.com/attachments/531598137790562305/575376840173027330/unknown.png)";

/// What [`out_of_memory_error`] finds in `log`.
pub open spec fn spec_out_of_memory_error(log: Seq<char>) -> Option<FindingView> {
    finding_when(
        occurs_in(OUT_OF_MEMORY_SIGNATURE@, log),
        Severity::Critical,
        OUT_OF_MEMORY_ADVICE@,
    )
}

/// The game ran out of heap.
pub fn out_of_memory_error(log: &str) -> (found: Option<Finding>)
    ensures
        found.deep_view() == spec_out_of_memory_error(log@),
{
    report_when(contains(log, OUT_OF_MEMORY_SIGNATURE), Severity::Critical, OUT_OF_MEMORY_ADVICE)
}

pub const SHADERS_MOD_SIGNATURE: &'static str =
    "java.lang.RuntimeException: Shaders Mod detected. Please remove it, \
    OptiFine has built-in support for shaders.";

pub const SHADERS_MOD_ADVICE: &'static str =
    "You've installed Shaders Mod alongside OptiFine. OptiFine has built-in shader support, \
    so you should remove Shaders Mod";

/// What [`shadermod_optifine_conflict`] finds in `log`.
pub open spec fn spec_shadermod_optifine_conflict(log: Seq<char>) -> Option<FindingView> {
    finding_when(occurs_in(SHADERS_MOD_SIGNATURE@, log), Severity::Critical, SHADERS_MOD_ADVICE@)
}

/// Shaders Mod installed beside OptiFine.
pub fn shadermod_optifine_conflict(log: &str) -> (found: Option<Finding>)
    ensures
        found.deep_view() == spec_shadermod_optifine_conflict(log@),
{
    report_when(contains(log, SHADERS_MOD_SIGNATURE), Severity::Critical, SHADERS_MOD_ADVICE)
}

pub const MISSING_MOD_SIGNATURE: &'static str =
    "net.fabricmc.loader.discovery.ModResolutionException: Could not find required mod:";

pub const REQUIRES_FABRIC_SIGNATURE: &'static str = "requires {fabric @";

pub const FABRIC_API_ADVICE: &'static str =
    "You are missing Fabric API, which is required by a mod. \
    [Download the needed version here](https://www.curseforge.com/minecraft/mc-mods/fabric-api)";

/// What [`fabric_api_missing`] finds in `log`.
pub open spec fn spec_fabric_api_missing(log: Seq<char>) -> Option<FindingView> {
    finding_when(
        occurs_in(MISSING_MOD_SIGNATURE@, log) && occurs_in(REQUIRES_FABRIC_SIGNATURE@, log),
        Severity::Critical,
        FABRIC_API_ADVICE@,
    )
}

/// A mod asks for Fabric API and it is not installed: both signatures must
/// be there.
pub fn fabric_api_missing(log: &str) -> (found: Option<Finding>)
    ensures
        found.deep_view() == spec_fabric_api_missing(log@),
{
    report_when(
        contains(log, MISSING_MOD_SIGNATURE) && contains(log, REQUIRES_FABRIC_SIGNATURE),
        Severity::Critical,
        FABRIC_API_ADVICE,
    )
}

pub const JAVA_ARCHITECTURE_SIGNATURE: &'static str =
    "Your Java architecture is not matching your system architecture.";

pub const JAVA_ARCHITECTURE_ADVICE: &'static str =
    "You're using 32-bit Java. [See here for help installing the correct version.]\
    (https://github.com/MultiMC/MultiMC5/wiki/Using-the-right-Java)";

/// What [`java_architecture`] finds in `log`.
pub open spec fn spec_java_architecture(log: Seq<char>) -> Option<FindingView> {
    finding_when(
        occurs_in(JAVA_ARCHITECTURE_SIGNATURE@, log),
        Severity::Warning,
        JAVA_ARCHITECTURE_ADVICE@,
    )
}

/// A 32-bit Java on a 64-bit system.
pub fn java_architecture(log: &str) -> (found: Option<Finding>)
    ensures
        found.deep_view() == spec_java_architecture(log@),
{
    report_when(
        contains(log, JAVA_ARCHITECTURE_SIGNATURE),
        Severity::Warning,
        JAVA_ARCHITECTURE_ADVICE,
    )
}

pub const MULTIMC_VERSION_PATTERN: &'static str =
    r"MultiMC version: (?P<major_ver>0\.[0-9]+\.[0-9]+-(?P<build>[0-9]+))\n";

/// The group of [`MULTIMC_VERSION_PATTERN`] that holds the build number.
pub const BUILD_GROUP: &'static str = "build";

/// The group of [`MULTIMC_VERSION_PATTERN`] that holds the whole version.
pub const VERSION_GROUP: &'static str = "major_ver";

/// Builds below this one are reported as old.
pub const OLDEST_CURRENT_BUILD: u32 = 900;

pub const OLD_BUILD_ADVICE_BEFORE: &'static str = "You seem to be using an old build of MultiMC (";

pub const OLD_BUILD_ADVICE_AFTER: &'static str = "). Please update to a more recent version.";

/// What [`old_multimc_version_from`] makes of the two captures.
pub open spec fn spec_old_multimc_version_from(build: CaptureView, version: CaptureView) -> Option<
    FindingView,
> {
    match (build, version) {
        (CaptureView::Group(number), CaptureView::Group(whole)) => match spec_parse_u32(number) {
            Some(n) => finding_when(
                n < OLDEST_CURRENT_BUILD,
                Severity::Warning,
                OLD_BUILD_ADVICE_BEFORE@ + whole + OLD_BUILD_ADVICE_AFTER@,
            ),
            None => None,
        },
        _ => None,
    }
}

/// What [`old_multimc_version`] finds in `log`.
pub open spec fn spec_old_multimc_version(log: Seq<char>) -> Option<FindingView> {
    spec_old_multimc_version_from(
        regex_capture(MULTIMC_VERSION_PATTERN@, log, BUILD_GROUP@),
        regex_capture(MULTIMC_VERSION_PATTERN@, log, VERSION_GROUP@),
    )
}

/// The finding for a log whose version line gave the build number `build`
/// and the whole version `version`: a warning that names the version if the
/// build number reads as a number below [`OLDEST_CURRENT_BUILD`]. No finding
/// if either was not captured, or if the build number cannot be read.
pub fn old_multimc_version_from(build: &Capture, version: &Capture) -> (found: Option<Finding>)
    ensures
        found.deep_view() == spec_old_multimc_version_from(build@, version@),
{
    match (build, version) {
        (Capture::Group(number), Capture::Group(whole)) => match parse_u32(number.as_str()) {
            Some(n) => {
                if n < OLDEST_CURRENT_BUILD {
                    Some(
                        Finding {
                            severity: Severity::Warning,
                            message: fill_in(
                                OLD_BUILD_ADVICE_BEFORE,
                                whole.as_str(),
                                OLD_BUILD_ADVICE_AFTER,
                            ),
                        },
                    )
                } else {
                    None
                }
            },
            None => None,
        },
        _ => None,
    }
}

/// A build of MultiMC older than [`OLDEST_CURRENT_BUILD`].
pub fn old_multimc_version(log: &str) -> (found: Option<Finding>)
    ensures
        found.deep_view() == spec_old_multimc_version(log@),
{
    let build = capture(MULTIMC_VERSION_PATTERN, log, BUILD_GROUP);
    match build {
        Capture::Group(_) => {
            let version = capture(MULTIMC_VERSION_PATTERN, log, VERSION_GROUP);
            old_multimc_version_from(&build, &version)
        },
        _ => None,
    }
}

pub const HEAP_FLAG_PATTERN: &'static str = r"-Xmx(?P<amount>[0-9]+)m[,\]]";

/// The group of [`HEAP_FLAG_PATTERN`] that holds the size of the heap.
pub const HEAP_AMOUNT_GROUP: &'static str = "amount";

/// The largest heap, in megabytes, that is not reported.
pub const LARGEST_SENSIBLE_HEAP: u32 = 10_000;

/// What [`ram_amount_from`] makes of `amount`, the size that was captured.
pub open spec fn spec_ram_amount_from(amount: CaptureView) -> Option<u32> {
    match amount {
        CaptureView::Group(size) => match spec_parse_u32(size) {
            Some(megabytes) if megabytes > LARGEST_SENSIBLE_HEAP => Some(megabytes),
            _ => None,
        },
        _ => None,
    }
}

/// What [`ram_amount`] reads in `log`.
pub open spec fn spec_ram_amount(log: Seq<char>) -> Option<u32> {
    spec_ram_amount_from(regex_capture(HEAP_FLAG_PATTERN@, log, HEAP_AMOUNT_GROUP@))
}

/// The heap in megabytes, for a log whose flag for the largest heap gave
/// `amount`, if that is more than [`LARGEST_SENSIBLE_HEAP`]. `None` if it is
/// not more, if no amount was captured, or if the amount cannot be read.
pub fn ram_amount_from(amount: &Capture) -> (excess: Option<u32>)
    ensures
        excess == spec_ram_amount_from(amount@),
{
    match amount {
        Capture::Group(size) => match parse_u32(size.as_str()) {
            Some(megabytes) => {
                if megabytes > LARGEST_SENSIBLE_HEAP {
                    Some(megabytes)
                } else {
                    None
                }
            },
            None => None,
        },
        _ => None,
    }
}

/// Too much memory for the game: the heap that the log shows, in megabytes,
/// if it is more than [`LARGEST_SENSIBLE_HEAP`]. This rule gives a number and
/// no finding: the advice shows the heap in gigabytes, as a fraction, and the
/// caller words it.
pub fn ram_amount(log: &str) -> (excess: Option<u32>)
    ensures
        excess == spec_ram_amount(log@),
{
    ram_amount_from(&capture(HEAP_FLAG_PATTERN, log, HEAP_AMOUNT_GROUP))
}

/// What [`unreadable_number`] makes of `number`.
pub open spec fn spec_unreadable_number(number: CaptureView) -> Option<Seq<char>> {
    match number {
        CaptureView::Group(text) if spec_parse_u32(text) is None => Some(text),
        _ => None,
    }
}

/// The text of `number`, if a number was captured and cannot be read. A rule
/// that meets such a number gives no finding and does not fail; this function
/// tells the caller what to write to its log.
pub fn unreadable_number(number: &Capture) -> (text: Option<String>)
    ensures
        text.deep_view() == spec_unreadable_number(number@),
{
    match number {
        Capture::Group(text) => {
            if parse_u32(text.as_str()).is_none() {
                Some(text.clone())
            } else {
                None
            }
        },
        _ => None,
    }
}

/// The build number in the version line of `log`, if it cannot be read.
pub fn unreadable_build(log: &str) -> (text: Option<String>)
    ensures
        text.deep_view() == spec_unreadable_number(
            regex_capture(MULTIMC_VERSION_PATTERN@, log@, BUILD_GROUP@),
        ),
{
    unreadable_number(&capture(MULTIMC_VERSION_PATTERN, log, BUILD_GROUP))
}

/// The size of the heap in `log`, if it cannot be read.
pub fn unreadable_heap(log: &str) -> (text: Option<String>)
    ensures
        text.deep_view() == spec_unreadable_number(
            regex_capture(HEAP_FLAG_PATTERN@, log@, HEAP_AMOUNT_GROUP@),
        ),
{
    unreadable_number(&capture(HEAP_FLAG_PATTERN, log, HEAP_AMOUNT_GROUP))
}

} // verus!
