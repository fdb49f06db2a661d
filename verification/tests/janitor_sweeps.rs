use portable_launcher::janitor::{
    choose_removal, cleanup_runtime_data, depth_limit, matches_runtime_data, subdirectory, sweeps,
    transient_extension, verdict, DataEntry, Deletion, EntryKind, Removal, Sweep, DATA_DIR,
    RUNTIME_DATA_PATTERN, SETTINGS_DIR, TEMP_DIR,
};

fn entry(name: &str, depth: usize, kind: EntryKind) -> DataEntry {
    DataEntry { file_name: Some(name.to_string()), depth, kind }
}

fn file(name: &str, depth: usize) -> DataEntry {
    entry(name, depth, EntryKind::File)
}

fn dir(name: &str, depth: usize) -> DataEntry {
    entry(name, depth, EntryKind::Directory)
}

fn delete(index: usize, how: Removal) -> Deletion {
    Deletion { index, how }
}

#[test]
fn fixed_names_of_the_data_directory() {
    assert_eq!(DATA_DIR, "Data");
    assert_eq!(SETTINGS_DIR, "settings");
    assert_eq!(TEMP_DIR, "Temp");
    assert_eq!(RUNTIME_DATA_PATTERN, "PortableApps.comLauncherRuntimeData-*.ini");
}

#[test]
fn runtime_data_names() {
    let hit = |name: &str| matches_runtime_data(&Some(name.to_string()));
    assert!(hit("PortableApps.comLauncherRuntimeData-FooPortable.ini"));
    assert!(hit("PortableApps.comLauncherRuntimeData-.ini"));
    assert!(!hit("PortableApps.comLauncherRuntimeData-FooPortable.ini.bak"));
    assert!(!hit("portableapps.comlauncherruntimedata-FooPortable.ini"));
    assert!(!hit("xPortableApps.comLauncherRuntimeData-Foo.ini"));
    assert!(!hit("PortableApps.comLauncherRuntimeData.ini"));
    assert!(!hit("PortableApps.comLauncherRuntimeData-*.ini.x"));
    assert!(!matches_runtime_data(&None));
}

#[test]
fn transient_extensions() {
    for ext in ["lock", "pid", "tmp", "temp"] {
        assert!(transient_extension(ext));
    }
    for ext in ["", "ini", "Lock", "PID", "tmpx", "log"] {
        assert!(!transient_extension(ext));
    }
}

#[test]
fn sweep_for_runtime_data_reaches_every_depth_but_the_top() {
    let entries = vec![
        dir("Data", 0),
        file("PortableApps.comLauncherRuntimeData-FooPortable.ini", 1),
        file("settings.ini", 1),
        dir("deep", 1),
        dir("deeper", 2),
        file("PortableApps.comLauncherRuntimeData-Bar.ini", 3),
        file("PortableApps.comLauncherRuntimeData-Bar.txt", 3),
    ];
    assert_eq!(
        cleanup_runtime_data(Sweep::RuntimeData, &entries),
        vec![delete(1, Removal::File), delete(5, Removal::File)]
    );
    assert_eq!(
        verdict(
            Sweep::RuntimeData,
            &file("PortableApps.comLauncherRuntimeData-FooPortable.ini", 0)
        ),
        None
    );
}

#[test]
fn sweep_of_settings_takes_transient_files() {
    let entries = vec![
        dir("settings", 0),
        file("app.lock", 1),
        file("app.ini", 1),
        file("server.pid", 2),
        file("cache.tmp", 2),
        file("cache.temp", 3),
        file("cache.TMP", 3),
        file("lock", 1),
        file(".lock", 1),
        file("a.lock.keep", 1),
    ];
    assert_eq!(
        cleanup_runtime_data(Sweep::Settings, &entries),
        vec![
            delete(1, Removal::File),
            delete(3, Removal::File),
            delete(4, Removal::File),
            delete(5, Removal::File),
        ]
    );
}

#[test]
fn sweep_of_the_top_takes_pid_files_directly_in_it() {
    let entries = vec![
        dir("Data", 0),
        file("app.pid", 1),
        file("app.lock", 1),
        file("nested.pid", 2),
        file("other.pid", 1),
    ];
    assert_eq!(
        cleanup_runtime_data(Sweep::DataRoot, &entries),
        vec![delete(1, Removal::File), delete(4, Removal::File)]
    );
}

#[test]
fn sweep_of_temp_empties_it_and_keeps_it() {
    let entries = vec![
        dir("Temp", 0),
        file("a.txt", 1),
        dir("sub", 1),
        file("b.txt", 2),
        entry("socket", 1, EntryKind::Other),
    ];
    assert_eq!(
        cleanup_runtime_data(Sweep::Temp, &entries),
        vec![delete(1, Removal::File), delete(2, Removal::Tree), delete(3, Removal::File)]
    );
}

#[test]
fn sweeps_of_nothing_delete_nothing() {
    for sweep in [Sweep::RuntimeData, Sweep::Settings, Sweep::DataRoot, Sweep::Temp] {
        assert!(cleanup_runtime_data(sweep, &Vec::new()).is_empty());
    }
}

#[test]
fn entries_without_a_textual_name() {
    let nameless = DataEntry { file_name: None, depth: 1, kind: EntryKind::File };
    assert_eq!(verdict(Sweep::RuntimeData, &nameless), None);
    assert_eq!(verdict(Sweep::Settings, &nameless), None);
    assert_eq!(verdict(Sweep::DataRoot, &nameless), None);
    assert_eq!(verdict(Sweep::Temp, &nameless), Some(Removal::File));
}

#[test]
fn removal_rules_one_by_one() {
    let pid = Some("pid".to_string());
    let none: Option<String> = None;
    assert_eq!(choose_removal(Sweep::RuntimeData, 1, EntryKind::File, &none, true), Some(Removal::File));
    assert_eq!(choose_removal(Sweep::RuntimeData, 1, EntryKind::Directory, &none, true), Some(Removal::File));
    assert_eq!(choose_removal(Sweep::RuntimeData, 0, EntryKind::File, &none, true), None);
    assert_eq!(choose_removal(Sweep::RuntimeData, 4, EntryKind::File, &pid, false), None);
    assert_eq!(choose_removal(Sweep::Settings, 0, EntryKind::File, &pid, false), Some(Removal::File));
    assert_eq!(choose_removal(Sweep::Settings, 9, EntryKind::File, &none, true), None);
    assert_eq!(choose_removal(Sweep::DataRoot, 0, EntryKind::File, &pid, false), Some(Removal::File));
    assert_eq!(choose_removal(Sweep::DataRoot, 1, EntryKind::File, &pid, false), Some(Removal::File));
    assert_eq!(choose_removal(Sweep::DataRoot, 2, EntryKind::File, &pid, false), None);
    assert_eq!(choose_removal(Sweep::DataRoot, 1, EntryKind::File, &Some("lock".to_string()), false), None);
    assert_eq!(choose_removal(Sweep::Temp, 0, EntryKind::Directory, &none, false), None);
    assert_eq!(choose_removal(Sweep::Temp, 1, EntryKind::Directory, &none, false), Some(Removal::Tree));
    assert_eq!(choose_removal(Sweep::Temp, 1, EntryKind::File, &pid, true), Some(Removal::File));
    assert_eq!(choose_removal(Sweep::Temp, 1, EntryKind::Other, &none, false), None);
}

#[test]
fn sweeps_come_in_a_fixed_order_with_fixed_targets() {
    assert_eq!(sweeps(), vec![Sweep::RuntimeData, Sweep::Settings, Sweep::DataRoot, Sweep::Temp]);
    assert_eq!(subdirectory(Sweep::RuntimeData), None);
    assert_eq!(subdirectory(Sweep::Settings), Some("settings"));
    assert_eq!(subdirectory(Sweep::DataRoot), None);
    assert_eq!(subdirectory(Sweep::Temp), Some("Temp"));
    assert_eq!(depth_limit(Sweep::RuntimeData), None);
    assert_eq!(depth_limit(Sweep::Settings), None);
    assert_eq!(depth_limit(Sweep::DataRoot), Some(1));
    assert_eq!(depth_limit(Sweep::Temp), None);
}
