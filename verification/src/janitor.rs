//! Removing stale runtime data before the original launcher starts, so that
//! it does not take leftovers of its last run for a crash.
//!
//! The data directory is swept four times. For each sweep the caller walks a
//! directory and describes what it found; the janitor says what to delete.
//! Nothing it names lies outside the directory that was walked.

use vstd::prelude::*;
use vstd::string::*;
use crate::names::{extension, extension_of};
use crate::text::{glob_match, glob_matches, is_portable_glob, str_eq};

verus! {

/// What kind of thing a walk came across.
#[derive(Clone, Copy, PartialEq, Eq, Debug, Structural)]
pub enum EntryKind {
    File,
    Directory,
    Other,
}

/// One thing that a walk came across.
pub struct DataEntry {
    /// Its last part, where that is valid text.
    pub file_name: Option<String>,
    /// How far below the directory walked it lies; that directory itself is
    /// at depth 0.
    pub depth: usize,
    pub kind: EntryKind,
}

/// One of the four sweeps.
#[derive(Clone, Copy, PartialEq, Eq, Debug, Structural)]
pub enum Sweep {
    /// The whole data directory, for runtime data files of the launcher.
    RuntimeData,
    /// The `settings` directory, for lock, pid and temporary files.
    Settings,
    /// The data directory and what lies directly in it, for pid files.
    DataRoot,
    /// The `Temp` directory, for everything in it.
    Temp,
}

/// How to delete an entry.
#[derive(Clone, Copy, PartialEq, Eq, Debug, Structural)]
pub enum Removal {
    /// Delete the file.
    File,
    /// Delete the directory and all it holds.
    Tree,
}

/// An entry to delete: its position among the entries given, and how.
#[derive(Clone, Copy, PartialEq, Eq, Debug, Structural)]
pub struct Deletion {
    pub index: usize,
    pub how: Removal,
}

/// The glob pattern for the names of the launcher's runtime data files.
pub const RUNTIME_DATA_PATTERN: &'static str = "PortableApps.comLauncherRuntimeData-*.ini";

/// The directory below the bundle that holds its data.
pub const DATA_DIR: &'static str = "Data";

/// The directory below the data directory that holds settings.
pub const SETTINGS_DIR: &'static str = "settings";

/// The directory below the data directory that holds temporary files.
pub const TEMP_DIR: &'static str = "Temp";

/// The directory below the data directory that a sweep walks; `None` for
/// the data directory itself.
pub open spec fn subdirectory_of(sweep: Sweep) -> Option<Seq<char>> {
    match sweep {
        Sweep::RuntimeData => None,
        Sweep::Settings => Some(SETTINGS_DIR@),
        Sweep::DataRoot => None,
        Sweep::Temp => Some(TEMP_DIR@),
    }
}

/// How deep the walk of a sweep goes; `None` where it goes all the way.
pub open spec fn depth_limit_of(sweep: Sweep) -> Option<usize> {
    match sweep {
        Sweep::DataRoot => Some(1usize),
        _ => None,
    }
}

/// Whether `ext` is one of `lock`, `pid`, `tmp` and `temp`.
pub open spec fn is_transient_extension(ext: Seq<char>) -> bool {
    ext == "lock"@ || ext == "pid"@ || ext == "tmp"@ || ext == "temp"@
}

/// The extension of an entry's name, where it has a name with one.
pub open spec fn entry_extension(file_name: Option<String>) -> Option<Seq<char>> {
    match file_name {
        Some(name) => extension_of(name@),
        None => None,
    }
}

/// Whether an entry's name is that of a runtime data file.
pub open spec fn is_runtime_data(file_name: Option<String>) -> bool {
    match file_name {
        Some(name) => glob_match(RUNTIME_DATA_PATTERN@, name@) == Some(true),
        None => false,
    }
}

/// What a sweep does with an entry at `depth` of `kind`, with `ext` as its
/// extension, given whether its name is that of a runtime data file.
pub open spec fn removal_of(
    sweep: Sweep,
    depth: nat,
    kind: EntryKind,
    ext: Option<Seq<char>>,
    runtime_data: bool,
) -> Option<Removal> {
    match sweep {
        Sweep::RuntimeData => if depth >= 1 && runtime_data {
            Some(Removal::File)
        } else {
            None
        },
        Sweep::Settings => if ext is Some && is_transient_extension(ext->0) {
            Some(Removal::File)
        } else {
            None
        },
        Sweep::DataRoot => if depth <= 1 && ext == Some("pid"@) {
            Some(Removal::File)
        } else {
            None
        },
        Sweep::Temp => if depth == 0 {
            None
        } else {
            match kind {
                EntryKind::File => Some(Removal::File),
                EntryKind::Directory => Some(Removal::Tree),
                EntryKind::Other => None,
            }
        },
    }
}

/// What a sweep does with an entry.
pub open spec fn verdict_of(sweep: Sweep, entry: DataEntry) -> Option<Removal> {
    removal_of(
        sweep,
        entry.depth as nat,
        entry.kind,
        entry_extension(entry.file_name),
        is_runtime_data(entry.file_name),
    )
}

/// The deletions of a sweep over `entries`, in the order of the entries.
pub open spec fn deletions_of(sweep: Sweep, entries: Seq<DataEntry>) -> Seq<Deletion>
    decreases entries.len(),
{
    if entries.len() == 0 {
        Seq::empty()
    } else {
        let front = deletions_of(sweep, entries.drop_last());
        match verdict_of(sweep, entries.last()) {
            Some(how) => front.push(Deletion { index: (entries.len() - 1) as usize, how }),
            None => front,
        }
    }
}

/// The four sweeps in the order in which they are made.
pub fn sweeps() -> (order: Vec<Sweep>)
    ensures
        order@ == seq![Sweep::RuntimeData, Sweep::Settings, Sweep::DataRoot, Sweep::Temp],
{
    let mut order: Vec<Sweep> = Vec::new();
    order.push(Sweep::RuntimeData);
    order.push(Sweep::Settings);
    order.push(Sweep::DataRoot);
    order.push(Sweep::Temp);
    assert(order@ =~= seq![Sweep::RuntimeData, Sweep::Settings, Sweep::DataRoot, Sweep::Temp]);
    order
}

/// The directory below the data directory that a sweep walks; `None` for
/// the data directory itself.
pub fn subdirectory(sweep: Sweep) -> (r: Option<&'static str>)
    ensures
        match r {
            Some(dir) => subdirectory_of(sweep) == Some(dir@),
            None => subdirectory_of(sweep) is None,
        },
{
    match sweep {
        Sweep::RuntimeData => None,
        Sweep::Settings => Some(SETTINGS_DIR),
        Sweep::DataRoot => None,
        Sweep::Temp => Some(TEMP_DIR),
    }
}

/// How deep the walk of a sweep goes; `None` where it goes all the way.
pub fn depth_limit(sweep: Sweep) -> (r: Option<usize>)
    ensures
        r == depth_limit_of(sweep),
{
    match sweep {
        Sweep::DataRoot => Some(1),
        _ => None,
    }
}

/// Whether `ext` is one of `lock`, `pid`, `tmp` and `temp`.
pub fn transient_extension(ext: &str) -> (r: bool)
    ensures
        r == is_transient_extension(ext@),
{
    str_eq(ext, "lock") || str_eq(ext, "pid") || str_eq(ext, "tmp") || str_eq(ext, "temp")
}

/// What a sweep does with an entry at `depth` of `kind`, with `ext` as its
/// extension, given whether its name is that of a runtime data file.
///
/// The sweep for runtime data deletes such files anywhere below the
/// directory walked. The sweep of the settings deletes whatever has the
/// extension `lock`, `pid`, `tmp` or `temp`. The sweep of the data
/// directory's top deletes what has the extension `pid` and lies no deeper
/// than directly in it. The sweep of the temporary directory deletes every
/// file and every directory with its contents, but not the directory walked.
pub fn choose_removal(
    sweep: Sweep,
    depth: usize,
    kind: EntryKind,
    ext: &Option<String>,
    runtime_data: bool,
) -> (r: Option<Removal>)
    ensures
        r == removal_of(
            sweep,
            depth as nat,
            kind,
            match *ext {
                Some(e) => Some(e@),
                None => None,
            },
            runtime_data,
        ),
{
    match sweep {
        Sweep::RuntimeData => if depth >= 1 && runtime_data {
            Some(Removal::File)
        } else {
            None
        },
        Sweep::Settings => match ext {
            Some(e) => if transient_extension(e.as_str()) {
                Some(Removal::File)
            } else {
                None
            },
            None => None,
        },
        Sweep::DataRoot => match ext {
            Some(e) => if depth <= 1 && str_eq(e.as_str(), "pid") {
                Some(Removal::File)
            } else {
                None
            },
            None => None,
        },
        Sweep::Temp => if depth == 0 {
            None
        } else {
            match kind {
                EntryKind::File => Some(Removal::File),
                EntryKind::Directory => Some(Removal::Tree),
                EntryKind::Other => None,
            }
        },
    }
}

/// Whether `file_name` is the name of a runtime data file of the launcher.
pub fn matches_runtime_data(file_name: &Option<String>) -> (r: bool)
    ensures
        r == is_runtime_data(*file_name),
{
    proof {
        reveal_strlit("PortableApps.comLauncherRuntimeData-*.ini");
        assert(!RUNTIME_DATA_PATTERN@.contains('/'));
        assert(!RUNTIME_DATA_PATTERN@.contains('\\'));
        assert(is_portable_glob(RUNTIME_DATA_PATTERN@));
    }
    match file_name {
        Some(name) => match glob_matches(RUNTIME_DATA_PATTERN, name.as_str()) {
            Some(hit) => hit,
            None => false,
        },
        None => false,
    }
}

/// What a sweep does with an entry.
pub fn verdict(sweep: Sweep, entry: &DataEntry) -> (r: Option<Removal>)
    ensures
        r == verdict_of(sweep, *entry),
{
    let ext: Option<String> = match &entry.file_name {
        Some(name) => extension(name.as_str()),
        None => None,
    };
    let runtime_data = match sweep {
        Sweep::RuntimeData => matches_runtime_data(&entry.file_name),
        _ => false,
    };
    choose_removal(sweep, entry.depth, entry.kind, &ext, runtime_data)
}

/// What to delete in one sweep, given the entries that the walk for that
/// sweep came across: for each entry that the sweep's rule names, its
/// position and how to delete it, in the order of the entries.
pub fn cleanup_runtime_data(sweep: Sweep, entries: &Vec<DataEntry>) -> (plan: Vec<Deletion>)
    ensures
        plan@ == deletions_of(sweep, entries@),
{
    let mut plan: Vec<Deletion> = Vec::new();
    let mut i: usize = 0;
    while i < entries.len()
        invariant
            i <= entries.len(),
            plan@ == deletions_of(sweep, entries@.take(i as int)),
        decreases entries.len() - i,
    {
        proof {
            assert(entries@.take(i + 1).drop_last() =~= entries@.take(i as int));
        }
        match verdict(sweep, &entries[i]) {
            Some(how) => {
                plan.push(Deletion { index: i, how });
            },
            None => {},
        }
        i += 1;
    }
    proof {
        assert(entries@.take(i as int) =~= entries@);
    }
    plan
}

/// A sweep names only entries that it was given, each at most once and in
/// rising order, and never the directory that was walked when it sweeps the
/// temporary directory or looks for runtime data.
pub proof fn law_deletions_are_entries(sweep: Sweep, entries: Seq<DataEntry>, k: int)
    requires
        0 <= k < deletions_of(sweep, entries).len(),
        entries.len() <= usize::MAX,
    ensures
        ({
            let plan = deletions_of(sweep, entries);
            let i = plan[k].index as int;
            &&& 0 <= i < entries.len()
            &&& verdict_of(sweep, entries[i]) == Some(plan[k].how)
            &&& k > 0 ==> plan[k - 1].index < plan[k].index
            &&& (sweep == Sweep::Temp || sweep == Sweep::RuntimeData) ==> entries[i].depth > 0
        }),
    decreases entries.len(),
{
    let front = entries.drop_last();
    let plan = deletions_of(sweep, entries);
    let before = deletions_of(sweep, front);
    if verdict_of(sweep, entries.last()) is Some && k == before.len() {
        if k > 0 {
            law_deletions_are_entries(sweep, front, k - 1);
        }
    } else {
        law_deletions_are_entries(sweep, front, k);
        assert(entries[plan[k].index as int] == front[plan[k].index as int]);
    }
}

/// A sweep passes over no entry that its rule names.
pub proof fn law_deletions_are_complete(sweep: Sweep, entries: Seq<DataEntry>, i: int)
    requires
        0 <= i < entries.len(),
        entries.len() <= usize::MAX,
        verdict_of(sweep, entries[i]) is Some,
    ensures
        exists|k: int|
            0 <= k < deletions_of(sweep, entries).len() && (#[trigger] deletions_of(
                sweep,
                entries,
            )[k]).index == i,
    decreases entries.len(),
{
    let front = entries.drop_last();
    let plan = deletions_of(sweep, entries);
    let before = deletions_of(sweep, front);
    if i == entries.len() - 1 {
        assert(plan[before.len() as int].index == i);
    } else {
        assert(front[i] == entries[i]);
        law_deletions_are_complete(sweep, front, i);
        let k = choose|k: int| 0 <= k < before.len() && (#[trigger] before[k]).index == i;
        assert(plan[k] == before[k]);
    }
}

} // verus!
