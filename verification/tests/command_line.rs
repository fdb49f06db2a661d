use portable_launcher::cli::{
    confirm_restore, exit_code, is_yes, log_line, parse_args, preflight, root_directory,
    summarize, Preflight, Summary, UNIVERSAL_LAUNCHER_NAME,
};
use portable_launcher::apply::{helper_arguments, HELPER_FILE_NAME};
use portable_launcher::launch::{command_line, quote};
use portable_launcher::protocol::{
    classify_copy_failure, describe, PatchError, Reply, Report, Stage,
};

fn args(words: &[&str]) -> Vec<String> {
    words.iter().map(|w| w.to_string()).collect()
}

#[test]
fn patch_tool_needs_a_root_directory() {
    assert!(parse_args(&args(&[])).is_none());
    assert!(parse_args(&args(&["replacer"])).is_none());
    assert!(root_directory(&args(&["restore"])).is_none());
    assert!(root_directory(&args(&[])).is_none());
    assert_eq!(root_directory(&args(&["restore", "D:\\Apps", "more"])), Some("D:\\Apps".to_string()));
}

#[test]
fn patch_tool_defaults() {
    let options = parse_args(&args(&["replacer", "D:\\PortableApps"])).unwrap();
    assert_eq!(options.root, "D:\\PortableApps");
    assert_eq!(options.universal_launcher, "UniversalLauncher.exe");
    assert_eq!(options.universal_launcher, UNIVERSAL_LAUNCHER_NAME);
    assert_eq!(options.log_file, None);
}

#[test]
fn patch_tool_takes_a_launcher_and_a_log() {
    let options = parse_args(&args(&[
        "replacer",
        "root",
        "C:\\Tools\\UniversalLauncher.exe",
        "--log",
        "C:\\Temp\\replacer.log",
    ]))
    .unwrap();
    assert_eq!(options.root, "root");
    assert_eq!(options.universal_launcher, "C:\\Tools\\UniversalLauncher.exe");
    assert_eq!(options.log_file, Some("C:\\Temp\\replacer.log".to_string()));

    let options = parse_args(&args(&["replacer", "root", "--log", "a.log", "stub.exe"])).unwrap();
    assert_eq!(options.universal_launcher, "stub.exe");
    assert_eq!(options.log_file, Some("a.log".to_string()));
}

#[test]
fn patch_tool_argument_edge_cases() {
    // `--log` without a file after it is skipped like any unknown option.
    let options = parse_args(&args(&["replacer", "root", "--log"])).unwrap();
    assert_eq!(options.log_file, None);
    assert_eq!(options.universal_launcher, "UniversalLauncher.exe");
    // The word after `--log` is the log file even if it looks like an option.
    let options = parse_args(&args(&["replacer", "root", "--log", "--verbose"])).unwrap();
    assert_eq!(options.log_file, Some("--verbose".to_string()));
    // Unknown options are skipped; the last launcher and the last log win.
    let options = parse_args(&args(&[
        "replacer", "root", "--quiet", "a.exe", "--log", "1.log", "b.exe", "--log", "2.log",
    ]))
    .unwrap();
    assert_eq!(options.universal_launcher, "b.exe");
    assert_eq!(options.log_file, Some("2.log".to_string()));
    // A single dash does not make an option.
    let options = parse_args(&args(&["replacer", "root", "-x"])).unwrap();
    assert_eq!(options.universal_launcher, "-x");
}

#[test]
fn confirmation_takes_y_and_yes() {
    for line in ["y", "Y", "yes", "YES", "Yes\n", "  y \r\n", "\tyEs\t", "\u{a0}y\u{2003}"] {
        assert!(confirm_restore(line), "{:?}", line);
    }
    for line in ["", "\n", "n", "no", "yess", "ye", "y e s", "yes please", "1"] {
        assert!(!confirm_restore(line), "{:?}", line);
    }
}

#[test]
fn a_bare_answer_is_compared_as_it_is() {
    assert!(is_yes("y"));
    assert!(is_yes("yes"));
    assert!(!is_yes("Y"));
    assert!(!is_yes(" yes"));
    assert!(!is_yes(""));
}

#[test]
fn log_lines_carry_the_time_in_brackets() {
    assert_eq!(
        log_line("2024-05-06 07:08:09", "Searching for PortableApps..."),
        "[2024-05-06 07:08:09] Searching for PortableApps..."
    );
    assert_eq!(log_line("", ""), "[] ");
}

#[test]
fn summary_counts_every_outcome() {
    let results = vec![
        Ok(Report::PatchedNewlyCreated),
        Err(PatchError::CopyHelperFailure),
        Ok(Report::PatchedUpdated),
        Ok(Report::PatchedNewlyCreated),
        Err(PatchError::IoFailure(Stage::RenameOriginal)),
        Ok(Report::Restored),
        Ok(Report::Launched),
    ];
    assert_eq!(
        summarize(&results),
        Summary { found: 7, newly_patched: 2, updated: 1, restored: 1, failed: 2, processed: 3 }
    );
    assert_eq!(
        summarize(&Vec::new()),
        Summary { found: 0, newly_patched: 0, updated: 0, restored: 0, failed: 0, processed: 0 }
    );
}

#[test]
fn command_line_quotes_the_program_and_spaced_arguments() {
    assert_eq!(command_line("C:\\Apps\\Foo_original.exe", &args(&[])), "\"C:\\Apps\\Foo_original.exe\"");
    assert_eq!(
        command_line("C:\\My Apps\\Foo_original.exe", &args(&["--open", "my file.txt", "x"])),
        "\"C:\\My Apps\\Foo_original.exe\" --open \"my file.txt\" x"
    );
    assert_eq!(command_line("p", &args(&["", " "])), "\"p\"  \" \"");
    assert_eq!(quote("a b"), "\"a b\"");
    assert_eq!(quote(""), "\"\"");
}

#[test]
fn helper_is_called_with_icon_source_payload_output() {
    assert_eq!(HELPER_FILE_NAME, "icocop.exe");
    assert_eq!(
        helper_arguments("Foo_original.exe", "UniversalLauncher.exe", "Foo.exe"),
        vec!["Foo_original.exe", "UniversalLauncher.exe", "Foo.exe"]
    );
    let paths = helper_arguments(
        std::path::PathBuf::from("dir/Foo_original.exe"),
        std::path::PathBuf::from("UniversalLauncher.exe"),
        std::path::PathBuf::from("dir/Foo.exe"),
    );
    assert_eq!(paths.len(), 3);
    assert_eq!(paths[0], std::path::Path::new("dir/Foo_original.exe"));
    assert_eq!(paths[1], std::path::Path::new("UniversalLauncher.exe"));
    assert_eq!(paths[2], std::path::Path::new("dir/Foo.exe"));
}

#[test]
fn copy_failures_are_told_apart() {
    assert_eq!(
        classify_copy_failure(Reply::HelperFailed, Stage::InstallStub),
        PatchError::CopyHelperFailure
    );
    assert_eq!(
        classify_copy_failure(Reply::IoError, Stage::InstallStub),
        PatchError::IoFailure(Stage::InstallStub)
    );
    assert_eq!(
        classify_copy_failure(Reply::Missing, Stage::UpdateStub),
        PatchError::IoFailure(Stage::UpdateStub)
    );
}

#[test]
fn every_error_has_its_words() {
    assert_eq!(
        describe(PatchError::MalformedName),
        "File doesn't match expected '_original.exe' pattern"
    );
    assert_eq!(describe(PatchError::MissingCurrentLauncher), "Current launcher not found");
    assert_eq!(describe(PatchError::MissingOriginalLauncher), "Original launcher not found");
    assert_eq!(describe(PatchError::CopyHelperFailure), "icocop.exe failed");
    assert_eq!(
        describe(PatchError::IoFailure(Stage::RenameOriginal)),
        "failed to rename original launcher"
    );
    assert_eq!(
        describe(PatchError::IoFailure(Stage::InstallStub)),
        "failed to copy universal launcher"
    );
    assert_eq!(
        describe(PatchError::IoFailure(Stage::UpdateStub)),
        "failed to update universal launcher"
    );
    assert_eq!(
        describe(PatchError::IoFailure(Stage::RemoveStub)),
        "Failed to remove universal launcher"
    );
    assert_eq!(
        describe(PatchError::IoFailure(Stage::RestoreOriginal)),
        "Failed to restore original launcher"
    );
    assert_eq!(
        describe(PatchError::IoFailure(Stage::RefreshBackupConfig)),
        "Failed to backup INI file"
    );
    assert_eq!(describe(PatchError::IoFailure(Stage::Launch)), "Failed to launch original launcher");
}

#[test]
fn paths_are_checked_root_first() {
    assert_eq!(preflight(true, true), Preflight::Ready);
    assert_eq!(preflight(false, true), Preflight::MissingRoot);
    assert_eq!(preflight(false, false), Preflight::MissingRoot);
    assert_eq!(preflight(true, false), Preflight::MissingUniversalLauncher);
}

#[test]
fn exit_code_tells_only_of_missing_arguments_and_paths() {
    assert_eq!(exit_code(true, Preflight::Ready), 0);
    assert_eq!(exit_code(false, Preflight::Ready), 1);
    assert_eq!(exit_code(true, Preflight::MissingRoot), 1);
    assert_eq!(exit_code(true, Preflight::MissingUniversalLauncher), 1);
    assert_eq!(exit_code(false, Preflight::MissingRoot), 1);
}
