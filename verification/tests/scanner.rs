use portable_launcher::scan::{
    find_bundles, find_patched_apps, find_portable_apps, matches_name, pattern, screen,
    screen_with, Candidate, Direction, Screening, APP_INFO_MARKER,
};

fn candidate(path: &str, is_file: bool, has_app_info_dir: bool) -> Candidate {
    Candidate {
        path: path.to_string(),
        file_name: path.rsplit('/').next().map(|name| name.to_string()),
        is_file,
        has_app_info_dir,
    }
}

#[test]
fn launcher_names_match_whatever_the_case() {
    for name in ["FooPortable.exe", "fooportable.exe", "FOOPORTABLE.EXE", "Portable.exe"] {
        assert!(matches_name(Direction::Patch, &Some(name.to_string())), "{}", name);
    }
    for name in [
        "Foo.exe",
        "FooPortable.exe.bak",
        "FooPortable_original.exe",
        "FooPortableXexe",
        "FooPortable.ex",
        "",
    ] {
        assert!(!matches_name(Direction::Patch, &Some(name.to_string())), "{}", name);
    }
    assert!(!matches_name(Direction::Patch, &None));
}

#[test]
fn original_names_match_whatever_the_case() {
    for name in ["FooPortable_original.exe", "fooPORTABLE_ORIGINAL.EXE"] {
        assert!(matches_name(Direction::Restore, &Some(name.to_string())), "{}", name);
    }
    for name in ["FooPortable.exe", "Foo_original.exe", "FooPortable_original.exe.old"] {
        assert!(!matches_name(Direction::Restore, &Some(name.to_string())), "{}", name);
    }
    assert!(!matches_name(Direction::Restore, &None));
}

#[test]
fn patterns_are_the_documented_ones() {
    assert_eq!(APP_INFO_MARKER, ("App", "AppInfo"));
    assert_eq!(pattern(Direction::Patch), r"(?i)portable\.exe$");
    assert_eq!(pattern(Direction::Restore), r"(?i)portable_original\.exe$");
}

#[test]
fn screening_names_the_first_thing_that_is_wrong() {
    assert_eq!(screen_with(true, true, true), Screening::Accepted);
    assert_eq!(screen_with(false, true, true), Screening::NotAFile);
    assert_eq!(screen_with(false, false, false), Screening::NotAFile);
    assert_eq!(screen_with(true, false, true), Screening::NameMismatch);
    assert_eq!(screen_with(true, false, false), Screening::NameMismatch);
    assert_eq!(screen_with(true, true, false), Screening::StructuralMismatch);
}

#[test]
fn a_launcher_without_app_info_is_never_returned() {
    let lonely = candidate("Tools/FooPortable/FooPortable.exe", true, false);
    assert_eq!(screen(Direction::Patch, &lonely), Screening::StructuralMismatch);
    assert!(find_portable_apps(&vec![lonely]).is_empty());
}

#[test]
fn a_directory_with_a_launcher_name_is_not_a_launcher() {
    let dir = candidate("Tools/FooPortable.exe", false, true);
    assert_eq!(screen(Direction::Patch, &dir), Screening::NotAFile);
    assert!(find_portable_apps(&vec![dir]).is_empty());
}

#[test]
fn scan_keeps_the_order_of_discovery() {
    let entries = vec![
        candidate("root", false, false),
        candidate("root/ZebraPortable/ZebraPortable.exe", true, true),
        candidate("root/ZebraPortable/App", false, false),
        candidate("root/ZebraPortable/help.html", true, true),
        candidate("root/AlphaPortable/AlphaPortable.exe", true, true),
        candidate("root/AlphaPortable/AlphaPortable_original.exe", true, true),
        candidate("root/Stray/StrayPortable.exe", true, false),
        candidate("root/midPortable/MIDPORTABLE.EXE", true, true),
    ];
    assert_eq!(
        find_portable_apps(&entries),
        vec![
            "root/ZebraPortable/ZebraPortable.exe",
            "root/AlphaPortable/AlphaPortable.exe",
            "root/midPortable/MIDPORTABLE.EXE",
        ]
    );
    assert_eq!(
        find_patched_apps(&entries),
        vec!["root/AlphaPortable/AlphaPortable_original.exe"]
    );
    assert_eq!(find_bundles(Direction::Patch, &entries), find_portable_apps(&entries));
    assert_eq!(find_bundles(Direction::Restore, &entries), find_patched_apps(&entries));
}

#[test]
fn scan_of_nothing_finds_nothing() {
    assert!(find_portable_apps(&Vec::new()).is_empty());
    assert!(find_patched_apps(&Vec::new()).is_empty());
}

#[test]
fn scan_skips_names_that_are_not_text() {
    let nameless = Candidate {
        path: "root/FooPortable/FooPortable.exe".to_string(),
        file_name: None,
        is_file: true,
        has_app_info_dir: true,
    };
    assert_eq!(screen(Direction::Patch, &nameless), Screening::NameMismatch);
    assert!(find_portable_apps(&vec![nameless]).is_empty());
}

#[test]
fn scan_reads_the_name_not_the_path() {
    let entry = Candidate {
        path: "root/FooPortable.exe/readme.txt".to_string(),
        file_name: Some("readme.txt".to_string()),
        is_file: true,
        has_app_info_dir: true,
    };
    assert!(find_portable_apps(&vec![entry]).is_empty());
}

#[test]
fn only_a_directory_marks_a_bundle() {
    // The caller sets the flag from "is a directory": a regular file called
    // `App/AppInfo` leaves it unset, and the launcher beside it is not taken.
    let beside_a_file = candidate("r/A/FooPortable.exe", true, false);
    let beside_a_directory = candidate("r/B/FooPortable.exe", true, true);
    assert_eq!(screen(Direction::Patch, &beside_a_file), Screening::StructuralMismatch);
    assert_eq!(
        find_portable_apps(&vec![beside_a_file, beside_a_directory]),
        vec!["r/B/FooPortable.exe"]
    );
}
