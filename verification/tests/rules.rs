use background_cat::finding::{Finding, Severity};
use background_cat::pattern::Capture;
use background_cat::rules::{
    fabric_api_missing, forge_too_new_java, id_range_exceeded, intel_graphics_icd_dll,
    intel_graphics_icd_dll_from, java_architecture, m1_failed_to_find_service_port,
    macos_too_new_java, major_java_version, major_java_version_from, multimc_in_onedrive_managed_folder,
    multimc_in_onedrive_managed_folder_from, multimc_in_program_files, old_multimc_version,
    old_multimc_version_from, one_seventeen_java_too_new, out_of_memory_error,
    pixel_format_not_accelerated_win10, shadermod_optifine_conflict, unreadable_build,
    unreadable_heap, unreadable_number,
};

fn critical(message: &str) -> Option<Finding> {
    Some(Finding { severity: Severity::Critical, message: message.to_string() })
}

fn warning(message: &str) -> Option<Finding> {
    Some(Finding { severity: Severity::Warning, message: message.to_string() })
}

fn in_a_log(signature: &str) -> String {
    format!("[12:00:01] Launching...\n{}\n[12:00:02] Process exited with code 1\n", signature)
}

#[test]
fn program_files_signature_is_reported() {
    let expected = critical("Your MultiMC installation is in Program Files, where MultiMC doesn't have permission to write.\n\
        You should move it somewhere else, like your Desktop.");
    assert_eq!(multimc_in_program_files("Minecraft folder is:\nC:/Program Files"), expected);
    assert_eq!(
        multimc_in_program_files(&in_a_log("Minecraft folder is:\nC:/Program Files (x86)/MultiMC")),
        expected
    );
}

#[test]
fn program_files_needs_the_exact_signature() {
    assert_eq!(multimc_in_program_files(""), None);
    assert_eq!(multimc_in_program_files("Minecraft folder is:\nC:/Program File"), None);
    assert_eq!(multimc_in_program_files("minecraft folder is:\nC:/Program Files"), None);
    assert_eq!(multimc_in_program_files("Minecraft folder is: C:/Program Files"), None);
    assert_eq!(multimc_in_program_files("Minecraft folder is:\nD:/Games/MultiMC"), None);
}

#[test]
fn macos_java_signature_is_reported() {
    let signature = r#"Terminating app due to uncaught exception 'NSInternalInconsistencyException', reason: 'NSWindow drag regions should only be invalidated on the Main Thread!'"#;
    assert_eq!(
        macos_too_new_java(&in_a_log(signature)),
        critical("You are using too new a Java version. Please follow the steps on this wiki page to install 8u241: https://github.com/MultiMC/MultiMC5/wiki/Java-on-macOS")
    );
    assert_eq!(macos_too_new_java(&in_a_log("NSInternalInconsistencyException")), None);
}

#[test]
fn id_range_signature_is_reported() {
    let signature = "java.lang.RuntimeException: Invalid id 4096 - maximum id range exceeded.";
    assert_eq!(
        id_range_exceeded(&in_a_log(signature)),
        critical("You've exceeded the hardcoded ID Limit. Remove some mods, or install [JustEnoughIDs](https://www.curseforge.com/minecraft/mc-mods/jeid)")
    );
    assert_eq!(
        id_range_exceeded("java.lang.RuntimeException: Invalid id 4095 - maximum id range exceeded."),
        None
    );
}

#[test]
fn out_of_memory_signature_is_reported() {
    assert_eq!(
        out_of_memory_error("Exception in thread \"main\" java.lang.OutOfMemoryError: Java heap space"),
        critical("You've run out of memory. You should allocate more, although the exact value depends on how many mods you have installed. \
        [Click this link for a guide.](https://cdn.discordapp.com/attachments/531598137790562305/575376840173027330/unknown.png)")
    );
    assert_eq!(out_of_memory_error("java.lang.OutOfMemoryErro"), None);
}

#[test]
fn shaders_mod_signature_is_reported() {
    let signature = "java.lang.RuntimeException: Shaders Mod detected. Please remove it, OptiFine has built-in support for shaders.";
    assert_eq!(
        shadermod_optifine_conflict(&in_a_log(signature)),
        critical("You've installed Shaders Mod alongside OptiFine. OptiFine has built-in shader support, so you should remove Shaders Mod")
    );
    assert_eq!(shadermod_optifine_conflict("Shaders Mod detected."), None);
}

#[test]
fn fabric_api_needs_both_signatures() {
    let exception =
        "net.fabricmc.loader.discovery.ModResolutionException: Could not find required mod:";
    let fabric = "requires {fabric @";
    let expected = critical("You are missing Fabric API, which is required by a mod. \
        [Download the needed version here](https://www.curseforge.com/minecraft/mc-mods/fabric-api)");
    assert_eq!(fabric_api_missing(&format!("{} modmenu {} [>=0.28.0]}}", exception, fabric)), expected);
    assert_eq!(fabric_api_missing(&format!("{}\nsome lines\n{}", fabric, exception)), expected);
    assert_eq!(fabric_api_missing(&in_a_log(exception)), None);
    assert_eq!(fabric_api_missing(&in_a_log(fabric)), None);
    assert_eq!(fabric_api_missing(""), None);
}

#[test]
fn forge_java_signature_is_reported() {
    let signature = "java.lang.ClassCastException: class jdk.internal.loader.ClassLoaders$AppClassLoader cannot be cast to class java.net.URLClassLoader";
    assert_eq!(
        forge_too_new_java(&in_a_log(signature)),
        critical("The version of Minecraft you are playing does not support using modern versions of Java. \
        [Please use Java 8, click here for help.](https://github.com/MultiMC/MultiMC5/wiki/Using-the-right-Java)")
    );
    assert_eq!(forge_too_new_java("java.lang.ClassCastException"), None);
}

#[test]
fn java_sixteen_is_asked_for_by_either_signature() {
    let expected = critical("You are playing a version of Minecraft that requires Java 16, but are using an older Java version. \n\
        Please install Java 16 you can find downloads [here](https://www.azul.com/downloads/?version=java-16-sts&architecture=x86-64-bit&package=jre#download-openjdk))\n\
        On Windows: Download the .msi file. After installation you may have to update MultiMC to detect the new Java version, to do so open the settings and \
        change Update Channel to 'Development', then update MultiMC.\n\
        Open the MultiMC Java settings and make sure Java 8 is still selected as default for more help with that run `-sjava`.\
        Then edit your 1.17 instance settings, open the Java tab, check 'Java Installation', click 'Auto-detect..' and select Java 16.");
    let class_version = "java.lang.UnsupportedClassVersionError: net/minecraft/client/main/Main";
    let fabric = "fabric requires {java @ [>=16]}";
    assert_eq!(one_seventeen_java_too_new(&in_a_log(class_version)), expected);
    assert_eq!(one_seventeen_java_too_new(&in_a_log(fabric)), expected);
    assert_eq!(one_seventeen_java_too_new(&format!("{}\n{}", class_version, fabric)), expected);
    assert_eq!(one_seventeen_java_too_new("fabric requires {java @ [>=17]}"), None);
}

#[test]
fn m1_signature_is_reported() {
    let signature = "java.lang.IllegalStateException: GLFW error before init: [0x10008]Cocoa: Failed to find service port for display";
    assert_eq!(
        m1_failed_to_find_service_port(&in_a_log(signature)),
        critical("You seem to be using an Apple M1 Mac with an incompatible version of Forge. Add the following to your launch arguments as a workaround: `-Dfml.earlyprogresswindow=false`")
    );
    assert_eq!(m1_failed_to_find_service_port("GLFW error before init"), None);
}

#[test]
fn pixel_format_needs_windows_ten() {
    let exception = "org.lwjgl.LWJGLException: Pixel format not accelerated";
    let system = "Operating System: Windows 10";
    let expected = warning("You seem to be using an Intel GPU that is not supported on Windows 10. \
         You will need to install an older version of Java, [see here for help](https://github.com/MultiMC/MultiMC5/wiki/Unsupported-Intel-GPUs)");
    assert_eq!(
        pixel_format_not_accelerated_win10(&format!("{} (64 bit)\n...\n{}\n", system, exception)),
        expected
    );
    assert_eq!(pixel_format_not_accelerated_win10(&in_a_log(exception)), None);
    assert_eq!(pixel_format_not_accelerated_win10(&in_a_log(system)), None);
    assert_eq!(
        pixel_format_not_accelerated_win10(&format!("Operating System: Windows 7\n{}", exception)),
        None
    );
}

#[test]
fn java_architecture_signature_is_reported() {
    let signature = "Your Java architecture is not matching your system architecture.";
    assert_eq!(
        java_architecture(&in_a_log(signature)),
        warning("You're using 32-bit Java. [See here for help installing the correct version.](https://github.com/MultiMC/MultiMC5/wiki/Using-the-right-Java)")
    );
    assert_eq!(java_architecture("Your Java architecture is matching"), None);
}

#[test]
fn onedrive_folder_is_reported() {
    let expected = warning("MultiMC is located in a folder managed by OneDrive. OneDrive messes with Minecraft folders while the game is running, \
        and this often leads to crashes.\nYou should move the MultiMC folder to a different folder.");
    assert_eq!(
        multimc_in_onedrive_managed_folder("Minecraft folder is:\nC:/Users/steve/OneDrive/MultiMC/instances"),
        expected
    );
    assert_eq!(multimc_in_onedrive_managed_folder_from(Some(true)), expected);
}

#[test]
fn onedrive_pattern_does_not_cross_lines_or_match_other_folders() {
    assert_eq!(
        multimc_in_onedrive_managed_folder("Minecraft folder is:\nC:/Users/steve/Desktop/MultiMC"),
        None
    );
    assert_eq!(
        multimc_in_onedrive_managed_folder("Minecraft folder is:\nC:/Users/steve\nC:/x/OneDrive"),
        None
    );
    assert_eq!(multimc_in_onedrive_managed_folder("Minecraft folder is:\nC:/OneDrive"), None);
    assert_eq!(multimc_in_onedrive_managed_folder_from(Some(false)), None);
    assert_eq!(multimc_in_onedrive_managed_folder_from(None), None);
}

#[test]
fn intel_driver_crash_is_reported() {
    let expected = warning("You seem to be using an Intel GPU that is not supported on Windows 10. \
         You will need to install an older version of Java, [see here for help](https://github.com/MultiMC/MultiMC5/wiki/Unsupported-Intel-GPUs)");
    assert_eq!(intel_graphics_icd_dll("# C  [ig75icd64.dll+0x2e0b0]"), expected);
    assert_eq!(intel_graphics_icd_dll("# C  [ig9icd32.dll+0xabcdef]\n"), expected);
    assert_eq!(intel_graphics_icd_dll_from(Some(true)), expected);
}

#[test]
fn intel_driver_pattern_is_exact() {
    assert_eq!(intel_graphics_icd_dll("# C  [nvoglv64.dll+0x2e0b0]"), None);
    assert_eq!(intel_graphics_icd_dll("# C [ig75icd64.dll+0x2e0b0]"), None);
    assert_eq!(intel_graphics_icd_dll("# C  [ig75icd64.dll+0x]"), None);
    assert_eq!(intel_graphics_icd_dll("# C  [ig75icd64.dll+0x2E0B0]"), None);
    assert_eq!(intel_graphics_icd_dll_from(Some(false)), None);
    assert_eq!(intel_graphics_icd_dll_from(None), None);
}

#[test]
fn old_build_is_reported_with_its_version() {
    assert_eq!(
        old_multimc_version("MultiMC version: 0.6.7-123\n"),
        warning("You seem to be using an old build of MultiMC (0.6.7-123). Please update to a more recent version.")
    );
    assert_eq!(
        old_multimc_version(&in_a_log("MultiMC version: 0.6.11-899")),
        warning("You seem to be using an old build of MultiMC (0.6.11-899). Please update to a more recent version.")
    );
    assert_eq!(
        old_multimc_version("MultiMC version: 0.1.2-0\n"),
        warning("You seem to be using an old build of MultiMC (0.1.2-0). Please update to a more recent version.")
    );
}

#[test]
fn build_nine_hundred_is_current() {
    assert_eq!(old_multimc_version("MultiMC version: 0.6.11-900\n"), None);
    assert_eq!(old_multimc_version("MultiMC version: 0.6.12-1400\n"), None);
    assert_eq!(old_multimc_version("MultiMC version: 0.6.12-4294967295\n"), None);
}

#[test]
fn version_line_must_have_the_expected_shape() {
    assert_eq!(old_multimc_version("MultiMC version: 0.6.7-123"), None);
    assert_eq!(old_multimc_version("MultiMC version: 1.6.7-123\n"), None);
    assert_eq!(old_multimc_version("MultiMC version: 0.6.7\n"), None);
    assert_eq!(old_multimc_version("MultiMC version: 0.6.7-custom\n"), None);
    assert_eq!(old_multimc_version(""), None);
}

#[test]
fn build_number_too_large_to_read_gives_no_finding() {
    assert_eq!(old_multimc_version("MultiMC version: 0.6.7-4294967296\n"), None);
    assert_eq!(old_multimc_version("MultiMC version: 0.6.7-99999999999999999999999\n"), None);
    let version = Capture::Group("0.6.7-4294967296".to_string());
    assert_eq!(old_multimc_version_from(&Capture::Group("4294967296".to_string()), &version), None);
    assert_eq!(old_multimc_version_from(&Capture::Group("12a".to_string()), &version), None);
    assert_eq!(old_multimc_version_from(&Capture::Group(String::new()), &version), None);
}

#[test]
fn old_build_needs_both_captures() {
    let build = Capture::Group("123".to_string());
    let version = Capture::Group("0.6.7-123".to_string());
    assert_eq!(
        old_multimc_version_from(&build, &version),
        warning("You seem to be using an old build of MultiMC (0.6.7-123). Please update to a more recent version.")
    );
    assert_eq!(old_multimc_version_from(&build, &Capture::NoGroup), None);
    assert_eq!(old_multimc_version_from(&build, &Capture::NoMatch), None);
    assert_eq!(old_multimc_version_from(&build, &Capture::BadPattern), None);
    assert_eq!(old_multimc_version_from(&Capture::NoGroup, &version), None);
    assert_eq!(old_multimc_version_from(&Capture::NoMatch, &version), None);
    assert_eq!(old_multimc_version_from(&Capture::BadPattern, &version), None);
    assert_eq!(old_multimc_version_from(&Capture::Group("900".to_string()), &version), None);
}

#[test]
fn java_eight_is_not_reported() {
    assert_eq!(major_java_version("Java is version 1.8.0_281, using 64-bit architecture."), None);
    assert_eq!(major_java_version("Java is version 8, using 64-bit architecture."), None);
    assert_eq!(major_java_version_from(&Capture::Group("8".to_string())), None);
}

#[test]
fn other_java_versions_are_reported_by_name() {
    assert_eq!(
        major_java_version("Java is version 11.0.9, using 64-bit architecture."),
        warning("You're using Java 11. Versions other than Java 8 are not designed to be used with Minecraft and may cause issues. \
                [See here for help installing the correct version.](https://github.com/MultiMC/MultiMC5/wiki/Using-the-right-Java)")
    );
    assert_eq!(
        major_java_version("Java is version 1.7.0_80, using 32-bit architecture."),
        warning("You're using Java 7. Versions other than Java 8 are not designed to be used with Minecraft and may cause issues. \
                [See here for help installing the correct version.](https://github.com/MultiMC/MultiMC5/wiki/Using-the-right-Java)")
    );
    let found = major_java_version_from(&Capture::Group("16".to_string())).unwrap();
    assert_eq!(found.severity, Severity::Warning);
    assert!(found.message.starts_with("You're using Java 16. Versions other than Java 8"));
}

#[test]
fn java_version_needs_a_capture() {
    assert_eq!(major_java_version("Java is version unknown,"), None);
    assert_eq!(major_java_version(""), None);
    assert_eq!(major_java_version_from(&Capture::NoMatch), None);
    assert_eq!(major_java_version_from(&Capture::NoGroup), None);
    assert_eq!(major_java_version_from(&Capture::BadPattern), None);
}

#[test]
fn unreadable_numbers_are_told_to_the_caller() {
    assert_eq!(
        unreadable_build("MultiMC version: 0.6.7-4294967296\n"),
        Some("4294967296".to_string())
    );
    assert_eq!(unreadable_heap("[-Xmx99999999999m]"), Some("99999999999".to_string()));
    assert_eq!(unreadable_number(&Capture::Group("12a".to_string())), Some("12a".to_string()));
    assert_eq!(unreadable_number(&Capture::Group(String::new())), Some(String::new()));
}

#[test]
fn readable_and_absent_numbers_are_not_told() {
    assert_eq!(unreadable_build("MultiMC version: 0.6.7-123\n"), None);
    assert_eq!(unreadable_build("MultiMC version: 0.6.7-4294967295\n"), None);
    assert_eq!(unreadable_build("no version line"), None);
    assert_eq!(unreadable_heap("[-Xmx12000m]"), None);
    assert_eq!(unreadable_heap("[-Xmx512m]"), None);
    assert_eq!(unreadable_heap(""), None);
    assert_eq!(unreadable_number(&Capture::Group("0".to_string())), None);
    assert_eq!(unreadable_number(&Capture::NoMatch), None);
    assert_eq!(unreadable_number(&Capture::NoGroup), None);
    assert_eq!(unreadable_number(&Capture::BadPattern), None);
}
