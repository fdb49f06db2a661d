//! Finding bundles: which of the files that a walk of the root directory
//! came across are launchers of bundles.

use vstd::prelude::*;
use vstd::string::*;
use crate::text::{regex_is_match, regex_search};

verus! {

/// What the scan looks for.
#[derive(Clone, Copy, PartialEq, Eq, Debug, Structural)]
pub enum Direction {
    /// Launchers to patch: `*Portable.exe`.
    Patch,
    /// Renamed originals to restore: `*Portable_original.exe`.
    Restore,
}

/// What a walk of the root directory found at one place.
pub struct Candidate {
    /// The path as the walk gave it.
    pub path: String,
    /// Its last part, where that is valid text.
    pub file_name: Option<String>,
    /// Whether it is a file.
    pub is_file: bool,
    /// Whether `App/AppInfo` beside it is a directory. A file of that name
    /// does not make a bundle.
    pub has_app_info_dir: bool,
}

/// What the scan makes of a candidate.
#[derive(Clone, Copy, PartialEq, Eq, Debug, Structural)]
pub enum Screening {
    /// A launcher of a bundle.
    Accepted,
    /// Not a file.
    NotAFile,
    /// The name is not the one looked for.
    NameMismatch,
    /// The name fits but there is no directory `App/AppInfo` beside the file.
    StructuralMismatch,
}

/// The directory beside a launcher that marks a bundle, as the two parts of
/// its path. Only a directory counts.
pub const APP_INFO_MARKER: (&'static str, &'static str) = ("App", "AppInfo");

/// The regular expression that a launcher's name has to match.
pub const LAUNCHER_PATTERN: &'static str = "(?i)portable\\.exe$";

/// The regular expression that a renamed original's name has to match.
pub const ORIGINAL_PATTERN: &'static str = "(?i)portable_original\\.exe$";

/// The regular expression for the names that a scan in `direction` wants.
pub open spec fn pattern_of(direction: Direction) -> Seq<char> {
    match direction {
        Direction::Patch => LAUNCHER_PATTERN@,
        Direction::Restore => ORIGINAL_PATTERN@,
    }
}

/// Whether a name fits the pattern of `direction`. A candidate without a
/// textual name fits none.
pub open spec fn name_fits(direction: Direction, file_name: Option<String>) -> bool {
    match file_name {
        Some(name) => regex_search(pattern_of(direction), name@) == Some(true),
        None => false,
    }
}

/// The verdict on a candidate, given whether its name fits.
pub open spec fn screening_of(is_file: bool, name_fits: bool, has_app_info_dir: bool) -> Screening {
    if !is_file {
        Screening::NotAFile
    } else if !name_fits {
        Screening::NameMismatch
    } else if !has_app_info_dir {
        Screening::StructuralMismatch
    } else {
        Screening::Accepted
    }
}

/// Whether the scan in `direction` takes `candidate`.
pub open spec fn accepts(direction: Direction, candidate: Candidate) -> bool {
    candidate.is_file && name_fits(direction, candidate.file_name) && candidate.has_app_info_dir
}

/// The paths of the candidates that the scan takes, in the order found.
pub open spec fn accepted_paths(direction: Direction, entries: Seq<Candidate>) -> Seq<Seq<char>>
    decreases entries.len(),
{
    if entries.len() == 0 {
        Seq::empty()
    } else if accepts(direction, entries.last()) {
        accepted_paths(direction, entries.drop_last()).push(entries.last().path@)
    } else {
        accepted_paths(direction, entries.drop_last())
    }
}

/// The text of each string.
pub open spec fn texts(strings: Seq<String>) -> Seq<Seq<char>> {
    strings.map_values(|s: String| s@)
}

/// The regular expression for the names that a scan in `direction` wants.
pub fn pattern(direction: Direction) -> (r: &'static str)
    ensures
        r@ == pattern_of(direction),
{
    match direction {
        Direction::Patch => LAUNCHER_PATTERN,
        Direction::Restore => ORIGINAL_PATTERN,
    }
}

/// The verdict on a candidate, given whether its name fits: only a file
/// whose name fits and that has a directory `App/AppInfo` beside it is
/// accepted.
pub fn screen_with(is_file: bool, name_fits: bool, has_app_info_dir: bool) -> (r: Screening)
    ensures
        r == screening_of(is_file, name_fits, has_app_info_dir),
        r == Screening::Accepted <==> is_file && name_fits && has_app_info_dir,
{
    if !is_file {
        Screening::NotAFile
    } else if !name_fits {
        Screening::NameMismatch
    } else if !has_app_info_dir {
        Screening::StructuralMismatch
    } else {
        Screening::Accepted
    }
}

/// Whether `file_name` fits the pattern of `direction`.
pub fn matches_name(direction: Direction, file_name: &Option<String>) -> (r: bool)
    ensures
        r == name_fits(direction, *file_name),
{
    match file_name {
        Some(name) => match regex_is_match(pattern(direction), name.as_str()) {
            Some(hit) => hit,
            None => false,
        },
        None => false,
    }
}

/// The verdict of a scan in `direction` on `candidate`.
pub fn screen(direction: Direction, candidate: &Candidate) -> (r: Screening)
    ensures
        r == screening_of(
            candidate.is_file,
            name_fits(direction, candidate.file_name),
            candidate.has_app_info_dir,
        ),
        r == Screening::Accepted <==> accepts(direction, *candidate),
{
    let fits = candidate.is_file && matches_name(direction, &candidate.file_name);
    screen_with(candidate.is_file, fits, candidate.has_app_info_dir)
}

/// Every accepted path belongs to a candidate that is a file, has a fitting
/// name and has a directory `App/AppInfo` beside it: without that directory
/// a file is never returned, whatever it is called.
pub proof fn law_structural_gate(direction: Direction, entries: Seq<Candidate>, k: int)
    requires
        0 <= k < accepted_paths(direction, entries).len(),
    ensures
        exists|i: int|
            0 <= i < entries.len() && #[trigger] entries[i].path@ == accepted_paths(
                direction,
                entries,
            )[k] && accepts(direction, entries[i]) && entries[i].has_app_info_dir,
    decreases entries.len(),
{
    let front = entries.drop_last();
    if accepts(direction, entries.last()) && k == accepted_paths(direction, front).len() {
        assert(entries[entries.len() - 1].path@ == accepted_paths(direction, entries)[k]);
    } else {
        law_structural_gate(direction, front, k);
        let i = choose|i: int|
            0 <= i < front.len() && #[trigger] front[i].path@ == accepted_paths(direction, front)[k]
                && accepts(direction, front[i]) && front[i].has_app_info_dir;
        assert(entries[i] == front[i]);
    }
}

/// The scan takes nothing where no candidate has a directory `App/AppInfo`
/// beside it.
pub proof fn law_nothing_without_app_info(direction: Direction, entries: Seq<Candidate>)
    requires
        forall|i: int| 0 <= i < entries.len() ==> !(#[trigger] entries[i]).has_app_info_dir,
    ensures
        accepted_paths(direction, entries).len() == 0,
    decreases entries.len(),
{
    if entries.len() > 0 {
        let front = entries.drop_last();
        assert forall|i: int| 0 <= i < front.len() implies !(#[trigger] front[i]).has_app_info_dir by {
            assert(front[i] == entries[i]);
        }
        law_nothing_without_app_info(direction, front);
        assert(!entries[entries.len() - 1].has_app_info_dir);
    }
}

/// The paths of the bundles among `entries` for a scan in `direction`, in
/// the order in which the walk found them.
pub fn find_bundles(direction: Direction, entries: &Vec<Candidate>) -> (found: Vec<String>)
    ensures
        texts(found@) == accepted_paths(direction, entries@),
{
    let mut found: Vec<String> = Vec::new();
    let mut i: usize = 0;
    while i < entries.len()
        invariant
            i <= entries.len(),
            texts(found@) == accepted_paths(direction, entries@.take(i as int)),
        decreases entries.len() - i,
    {
        let ghost before = found@;
        proof {
            assert(entries@.take(i + 1).drop_last() =~= entries@.take(i as int));
        }
        match screen(direction, &entries[i]) {
            Screening::Accepted => {
                found.push(entries[i].path.clone());
                proof {
                    assert(texts(found@) =~= texts(before).push(entries[i as int].path@));
                }
            },
            _ => {},
        }
        i += 1;
    }
    proof {
        assert(entries@.take(i as int) =~= entries@);
    }
    found
}

/// The launchers to patch among `entries`: files named `*Portable.exe`,
/// whatever the case of the letters, with a directory `App/AppInfo` beside
/// them.
pub fn find_portable_apps(entries: &Vec<Candidate>) -> (found: Vec<String>)
    ensures
        texts(found@) == accepted_paths(Direction::Patch, entries@),
{
    find_bundles(Direction::Patch, entries)
}

/// The renamed originals to restore among `entries`: files named
/// `*Portable_original.exe`, whatever the case of the letters, with a
/// directory `App/AppInfo` beside them.
pub fn find_patched_apps(entries: &Vec<Candidate>) -> (found: Vec<String>)
    ensures
        texts(found@) == accepted_paths(Direction::Restore, entries@),
{
    find_bundles(Direction::Restore, entries)
}

} // verus!
