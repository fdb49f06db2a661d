//! The file names of a bundle, all relative to the directory that holds its
//! launcher, with `/` between the parts of a path.

use vstd::prelude::*;
use vstd::string::*;
use crate::protocol::{PatchError, Slot};
use crate::text::{is_suffix, ends_with};

verus! {

/// Index of the last `.` in `name`, or -1 where it holds none.
pub open spec fn last_dot(name: Seq<char>) -> int
    decreases name.len(),
{
    if name.len() == 0 {
        -1
    } else if name.last() == '.' {
        name.len() - 1
    } else {
        last_dot(name.drop_last())
    }
}

/// Number of characters of the stem: everything before the last `.`, or the
/// whole name where it holds no `.` or only a leading one.
pub open spec fn stem_len(name: Seq<char>) -> int {
    if last_dot(name) <= 0 {
        name.len() as int
    } else {
        last_dot(name)
    }
}

/// The file stem of `name`.
pub open spec fn stem_of(name: Seq<char>) -> Seq<char> {
    name.subrange(0, stem_len(name))
}

/// What follows the stem: the extension with its dot, or nothing.
pub open spec fn dotted_extension_of(name: Seq<char>) -> Seq<char> {
    name.subrange(stem_len(name), name.len() as int)
}

/// The extension of `name` without its dot, where it has one.
pub open spec fn extension_of(name: Seq<char>) -> Option<Seq<char>> {
    if last_dot(name) <= 0 {
        None
    } else {
        Some(name.subrange(last_dot(name) + 1, name.len() as int))
    }
}

/// The marker that a renamed original carries at the end of its stem.
pub open spec fn original_suffix() -> Seq<char> {
    "_original"@
}

/// The directory with the launcher configuration, with a trailing `/`.
pub open spec fn config_dir() -> Seq<char> {
    "App/AppInfo/Launcher/"@
}

/// The name under which the original of launcher `name` is kept: the stem
/// gets the `_original` marker, the extension stays.
pub open spec fn original_name_of(name: Seq<char>) -> Seq<char> {
    stem_of(name) + original_suffix() + dotted_extension_of(name)
}

/// Whether the stem of `name` ends in the `_original` marker.
pub open spec fn has_original_marker(name: Seq<char>) -> bool {
    is_suffix(stem_of(name), original_suffix())
}

/// The stem of `name` without the `_original` marker at its end.
pub open spec fn base_of(name: Seq<char>) -> Seq<char> {
    stem_of(name).subrange(0, stem_of(name).len() - original_suffix().len())
}

/// The launcher that a renamed original `name` belongs to.
pub open spec fn launcher_name_of(name: Seq<char>) -> Seq<char> {
    base_of(name) + ".exe"@
}

/// The live launcher configuration of the bundle with stem `base`.
pub open spec fn live_config_of(base: Seq<char>) -> Seq<char> {
    config_dir() + base + ".ini"@
}

/// The backup of the launcher configuration of the bundle with stem `base`.
pub open spec fn backup_config_of(base: Seq<char>) -> Seq<char> {
    config_dir() + base + "_original.ini"@
}

/// The four file names of a bundle, as plain text.
pub struct Paths {
    pub launcher: Seq<char>,
    pub original: Seq<char>,
    pub live_config: Seq<char>,
    pub backup_config: Seq<char>,
}

impl Paths {
    /// The name that `slot` stands for.
    pub open spec fn path(self, slot: Slot) -> Seq<char> {
        match slot {
            Slot::Launcher => self.launcher,
            Slot::Original => self.original,
            Slot::LiveConfig => self.live_config,
            Slot::BackupConfig => self.backup_config,
        }
    }

    /// No two of launcher, original and backup configuration share a name.
    pub open spec fn distinct(self) -> bool {
        &&& self.launcher != self.original
        &&& self.backup_config != self.launcher
        &&& self.backup_config != self.original
    }
}

/// The names of the bundle whose launcher is called `name`.
pub open spec fn launcher_paths(name: Seq<char>) -> Paths {
    Paths {
        launcher: name,
        original: original_name_of(name),
        live_config: live_config_of(stem_of(name)),
        backup_config: backup_config_of(stem_of(name)),
    }
}

/// The names of the bundle whose renamed original is called `name`.
pub open spec fn original_paths(name: Seq<char>) -> Paths {
    Paths {
        launcher: launcher_name_of(name),
        original: name,
        live_config: live_config_of(base_of(name)),
        backup_config: backup_config_of(base_of(name)),
    }
}

pub proof fn lemma_last_dot_bounds(name: Seq<char>)
    ensures
        -1 <= last_dot(name) < name.len(),
        last_dot(name) >= 0 ==> name[last_dot(name)] == '.',
        forall|j: int| last_dot(name) < j < name.len() ==> name[j] != '.',
    decreases name.len(),
{
    if name.len() > 0 && name.last() != '.' {
        let front = name.drop_last();
        lemma_last_dot_bounds(front);
        assert forall|j: int| last_dot(name) < j < name.len() implies name[j] != '.' by {
            if j < front.len() {
                assert(name[j] == front[j]);
            }
        }
    }
}

pub proof fn lemma_last_dot_unique(name: Seq<char>, i: int)
    requires
        -1 <= i < name.len(),
        i >= 0 ==> name[i] == '.',
        forall|j: int| i < j < name.len() ==> name[j] != '.',
    ensures
        last_dot(name) == i,
{
    lemma_last_dot_bounds(name);
}

/// Position of the last `.` in `name`, counted in characters.
pub fn find_last_dot(name: &str) -> (r: Option<usize>)
    ensures
        match r {
            Some(i) => i as int == last_dot(name@),
            None => last_dot(name@) == -1,
        },
{
    let n: usize = name.unicode_len();
    let mut i: usize = n;
    while i > 0
        invariant
            i <= n,
            n == name@.len(),
            forall|j: int| i <= j < n ==> name@[j] != '.',
        decreases i,
    {
        i -= 1;
        if name.get_char(i) == '.' {
            proof {
                lemma_last_dot_unique(name@, i as int);
            }
            return Some(i);
        }
    }
    proof {
        lemma_last_dot_unique(name@, -1);
    }
    None
}

/// Number of characters in the stem of `name`.
pub fn stem_length(name: &str) -> (r: usize)
    ensures
        r as int == stem_len(name@),
        r <= name@.len(),
{
    proof {
        lemma_last_dot_bounds(name@);
    }
    match find_last_dot(name) {
        Some(i) => if i == 0 {
            name.unicode_len()
        } else {
            i
        },
        None => name.unicode_len(),
    }
}

/// The stem of a file name.
pub fn file_stem(name: &str) -> (r: String)
    ensures
        r@ == stem_of(name@),
{
    let k: usize = stem_length(name);
    String::from_str(name.substring_char(0, k))
}

/// The extension of a file name, without the dot.
pub fn extension(name: &str) -> (r: Option<String>)
    ensures
        match r {
            Some(e) => extension_of(name@) == Some(e@),
            None => extension_of(name@) is None,
        },
{
    proof {
        lemma_last_dot_bounds(name@);
    }
    match find_last_dot(name) {
        Some(i) => if i == 0 {
            None
        } else {
            let n: usize = name.unicode_len();
            Some(String::from_str(name.substring_char(i + 1, n)))
        },
        None => None,
    }
}

/// The name under which the original of launcher `name` is kept.
pub fn original_name(name: &str) -> (r: String)
    ensures
        r@ == original_name_of(name@),
{
    let n: usize = name.unicode_len();
    let k: usize = stem_length(name);
    let stem = String::from_str(name.substring_char(0, k));
    stem.concat("_original").concat(name.substring_char(k, n))
}

/// The stem of `name` without its `_original` marker, where it has one.
pub fn strip_original(name: &str) -> (r: Option<String>)
    ensures
        match r {
            Some(b) => has_original_marker(name@) && b@ == base_of(name@),
            None => !has_original_marker(name@),
        },
{
    let stem = file_stem(name);
    if ends_with(stem.as_str(), "_original") {
        let n: usize = stem.as_str().unicode_len();
        let m: usize = "_original".unicode_len();
        Some(String::from_str(stem.as_str().substring_char(0, n - m)))
    } else {
        None
    }
}

/// The file names of one bundle.
pub struct BundleNames {
    pub launcher: String,
    pub original: String,
    pub live_config: String,
    pub backup_config: String,
}

impl View for BundleNames {
    type V = Paths;

    open spec fn view(&self) -> Paths {
        Paths {
            launcher: self.launcher@,
            original: self.original@,
            live_config: self.live_config@,
            backup_config: self.backup_config@,
        }
    }
}

impl BundleNames {
    /// The names of the bundle whose launcher is called `name`: the original
    /// is kept under the stem with `_original` and the same extension, the
    /// configuration files are named after the stem.
    pub fn for_launcher(name: &str) -> (names: BundleNames)
        ensures
            names@ == launcher_paths(name@),
    {
        let stem = file_stem(name);
        let dir = String::from_str("App/AppInfo/Launcher/");
        BundleNames {
            launcher: String::from_str(name),
            original: original_name(name),
            live_config: dir.clone().concat(stem.as_str()).concat(".ini"),
            backup_config: dir.concat(stem.as_str()).concat("_original.ini"),
        }
    }

    /// The names of the bundle whose renamed original is called `name`. The
    /// launcher is the stem without its `_original` marker, with `.exe`.
    /// Fails with `MalformedName` exactly when the stem lacks the marker.
    pub fn for_original(name: &str) -> (r: Result<BundleNames, PatchError>)
        ensures
            match r {
                Ok(names) => has_original_marker(name@) && names@ == original_paths(name@),
                Err(e) => !has_original_marker(name@) && e == PatchError::MalformedName,
            },
    {
        match strip_original(name) {
            Some(base) => {
                let dir = String::from_str("App/AppInfo/Launcher/");
                Ok(
                    BundleNames {
                        launcher: base.clone().concat(".exe"),
                        original: String::from_str(name),
                        live_config: dir.clone().concat(base.as_str()).concat(".ini"),
                        backup_config: dir.concat(base.as_str()).concat("_original.ini"),
                    },
                )
            },
            None => Err(PatchError::MalformedName),
        }
    }

    /// The name that `slot` stands for.
    pub fn path(&self, slot: Slot) -> (r: &String)
        ensures
            r@ == self@.path(slot),
    {
        match slot {
            Slot::Launcher => &self.launcher,
            Slot::Original => &self.original,
            Slot::LiveConfig => &self.live_config,
            Slot::BackupConfig => &self.backup_config,
        }
    }
}

} // verus!
