use portable_launcher::names::{
    extension, file_stem, find_last_dot, original_name, stem_length, strip_original, BundleNames,
};
use portable_launcher::protocol::{PatchError, Slot};
use portable_launcher::text::{contains_char, ends_with, starts_with, str_eq};

#[test]
fn stem_and_extension_split_at_the_last_dot() {
    assert_eq!(file_stem("FooPortable.exe"), "FooPortable");
    assert_eq!(extension("FooPortable.exe"), Some("exe".to_string()));
    assert_eq!(file_stem("archive.tar.gz"), "archive.tar");
    assert_eq!(extension("archive.tar.gz"), Some("gz".to_string()));
    assert_eq!(find_last_dot("archive.tar.gz"), Some(11));
    assert_eq!(stem_length("archive.tar.gz"), 11);
}

#[test]
fn names_without_an_extension_are_all_stem() {
    assert_eq!(file_stem("FooPortable"), "FooPortable");
    assert_eq!(extension("FooPortable"), None);
    assert_eq!(find_last_dot("FooPortable"), None);
    assert_eq!(file_stem(".hidden"), ".hidden");
    assert_eq!(extension(".hidden"), None);
    assert_eq!(file_stem(""), "");
    assert_eq!(extension(""), None);
    assert_eq!(file_stem("trailing."), "trailing");
    assert_eq!(extension("trailing."), Some(String::new()));
}

#[test]
fn split_counts_characters_not_bytes() {
    assert_eq!(file_stem("Größe.exe"), "Größe");
    assert_eq!(extension("Größe.exe"), Some("exe".to_string()));
    assert_eq!(original_name("Größe.exe"), "Größe_original.exe");
}

#[test]
fn original_name_keeps_the_extension() {
    assert_eq!(original_name("FooPortable.exe"), "FooPortable_original.exe");
    assert_eq!(original_name("FooPortable.EXE"), "FooPortable_original.EXE");
    assert_eq!(original_name("FooPortable"), "FooPortable_original");
    assert_eq!(original_name("a.b.exe"), "a.b_original.exe");
    assert_eq!(original_name(".exe"), ".exe_original");
}

#[test]
fn strip_original_takes_one_marker_off_the_stem() {
    assert_eq!(strip_original("FooPortable_original.exe"), Some("FooPortable".to_string()));
    assert_eq!(strip_original("Foo_original_original.exe"), Some("Foo_original".to_string()));
    assert_eq!(strip_original("_original.exe"), Some(String::new()));
    assert_eq!(strip_original("FooPortable.exe"), None);
    assert_eq!(strip_original("FooPortable_Original.exe"), None);
    assert_eq!(strip_original("Foo.exe_original"), None);
    assert_eq!(strip_original(".hidden_original"), Some(".hidden".to_string()));
    assert_eq!(strip_original("Foo_original.bak.exe"), None);
}

#[test]
fn names_for_a_launcher() {
    let names = BundleNames::for_launcher("FooPortable.exe");
    assert_eq!(names.launcher, "FooPortable.exe");
    assert_eq!(names.original, "FooPortable_original.exe");
    assert_eq!(names.live_config, "App/AppInfo/Launcher/FooPortable.ini");
    assert_eq!(names.backup_config, "App/AppInfo/Launcher/FooPortable_original.ini");
    assert_eq!(names.path(Slot::Launcher), "FooPortable.exe");
    assert_eq!(names.path(Slot::Original), "FooPortable_original.exe");
    assert_eq!(names.path(Slot::LiveConfig), "App/AppInfo/Launcher/FooPortable.ini");
    assert_eq!(names.path(Slot::BackupConfig), "App/AppInfo/Launcher/FooPortable_original.ini");
}

#[test]
fn names_for_an_original() {
    let names = BundleNames::for_original("FooPortable_original.exe").unwrap();
    assert_eq!(names.launcher, "FooPortable.exe");
    assert_eq!(names.original, "FooPortable_original.exe");
    assert_eq!(names.live_config, "App/AppInfo/Launcher/FooPortable.ini");
    assert_eq!(names.backup_config, "App/AppInfo/Launcher/FooPortable_original.ini");
}

#[test]
fn names_for_an_original_always_end_in_exe() {
    let names = BundleNames::for_original("FooPortable_original.EXE").unwrap();
    assert_eq!(names.launcher, "FooPortable.exe");
    assert_eq!(names.original, "FooPortable_original.EXE");
}

#[test]
fn names_for_an_original_need_the_marker() {
    assert!(matches!(BundleNames::for_original("FooPortable.exe"), Err(PatchError::MalformedName)));
    assert!(matches!(BundleNames::for_original(""), Err(PatchError::MalformedName)));
    assert!(matches!(
        BundleNames::for_original("FooPortable_original"),
        Ok(names) if names.launcher == "FooPortable.exe"
    ));
}

#[test]
fn names_round_trip_for_exe_launchers() {
    for launcher in ["FooPortable.exe", "a.b.exe", "x_original.exe", "Größe.exe"] {
        let forward = BundleNames::for_launcher(launcher);
        let back = BundleNames::for_original(&forward.original).unwrap();
        assert_eq!(back.launcher, forward.launcher);
        assert_eq!(back.original, forward.original);
        assert_eq!(back.live_config, forward.live_config);
        assert_eq!(back.backup_config, forward.backup_config);
    }
}

#[test]
fn text_helpers_compare_by_character() {
    assert!(str_eq("abc", "abc"));
    assert!(!str_eq("abc", "abd"));
    assert!(!str_eq("abc", "ab"));
    assert!(str_eq("", ""));
    assert!(ends_with("FooPortable_original", "_original"));
    assert!(ends_with("x", ""));
    assert!(!ends_with("original", "_original"));
    assert!(!ends_with("Foo_originals", "_original"));
    assert!(starts_with("--log", "--"));
    assert!(!starts_with("-l", "--"));
    assert!(!starts_with("a--", "--"));
    assert!(contains_char("a b", ' '));
    assert!(!contains_char("ab", ' '));
    assert!(!contains_char("", ' '));
}
