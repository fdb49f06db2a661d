//! What the command-line tools decide before and after they touch a bundle:
//! their arguments, the user's confirmation, the lines of the log and the
//! counts of the final summary.

use vstd::prelude::*;
use vstd::string::*;
use crate::protocol::{PatchError, Report};
use crate::text::{is_prefix, lowercased, starts_with, str_eq, to_lowercase, trim, trimmed};

verus! {

/// Where the universal launcher is looked for when no path is given.
pub const UNIVERSAL_LAUNCHER_NAME: &'static str = "UniversalLauncher.exe";

/// The arguments of the patch tool.
pub struct Options {
    /// The directory to search for bundles.
    pub root: String,
    /// The universal launcher to install.
    pub universal_launcher: String,
    /// The file to write the log to, if any.
    pub log_file: Option<String>,
}

/// The arguments of the patch tool, as plain text.
pub struct OptionsView {
    pub root: Seq<char>,
    pub universal_launcher: Seq<char>,
    pub log_file: Option<Seq<char>>,
}

impl View for Options {
    type V = OptionsView;

    open spec fn view(&self) -> OptionsView {
        OptionsView {
            root: self.root@,
            universal_launcher: self.universal_launcher@,
            log_file: match self.log_file {
                Some(path) => Some(path@),
                None => None,
            },
        }
    }
}

/// The options after the arguments from position `i` on have been read,
/// starting from `so_far`: `--log` takes the argument after it as the log
/// file, any other argument that begins with `--` is skipped, and any other
/// argument is the universal launcher. Later arguments override earlier ones.
pub open spec fn options_from(args: Seq<String>, i: int, so_far: OptionsView) -> OptionsView
    decreases args.len() - i,
{
    if i < 0 || i >= args.len() {
        so_far
    } else if args[i]@ == "--log"@ && i + 1 < args.len() {
        options_from(args, i + 2, OptionsView { log_file: Some(args[i + 1]@), ..so_far })
    } else if !is_prefix(args[i]@, "--"@) {
        options_from(args, i + 1, OptionsView { universal_launcher: args[i]@, ..so_far })
    } else {
        options_from(args, i + 1, so_far)
    }
}

/// The options that the arguments of the patch tool stand for; the first
/// argument is the program itself, the second the root directory. `None`
/// where the root directory is missing.
pub open spec fn options_of(args: Seq<String>) -> Option<OptionsView> {
    if args.len() < 2 {
        None
    } else {
        Some(
            options_from(
                args,
                2,
                OptionsView {
                    root: args[1]@,
                    universal_launcher: UNIVERSAL_LAUNCHER_NAME@,
                    log_file: None,
                },
            ),
        )
    }
}

/// Reads the arguments of the patch tool:
/// `<root> [universal launcher] [--log <file>]`. Gives `None` exactly when
/// the root directory is missing.
pub fn parse_args(args: &Vec<String>) -> (r: Option<Options>)
    ensures
        match r {
            Some(options) => options_of(args@) == Some(options@),
            None => options_of(args@) is None,
        },
{
    if args.len() < 2 {
        return None;
    }
    let mut options = Options {
        root: args[1].clone(),
        universal_launcher: String::from_str(UNIVERSAL_LAUNCHER_NAME),
        log_file: None,
    };
    let mut i: usize = 2;
    while i < args.len()
        invariant
            2 <= i <= args.len() + 1,
            options_of(args@) == Some(options_from(args@, i as int, options@)),
        decreases args.len() + 1 - i,
    {
        let arg = args[i].as_str();
        if str_eq(arg, "--log") && i + 1 < args.len() {
            options.log_file = Some(args[i + 1].clone());
            i += 2;
        } else if !starts_with(arg, "--") {
            options.universal_launcher = args[i].clone();
            i += 1;
        } else {
            i += 1;
        }
    }
    Some(options)
}

/// The root directory that the restore tool was given: its second argument.
pub fn root_directory(args: &Vec<String>) -> (r: Option<String>)
    ensures
        match r {
            Some(root) => args@.len() >= 2 && root@ == args@[1]@,
            None => args@.len() < 2,
        },
{
    if args.len() < 2 {
        None
    } else {
        Some(args[1].clone())
    }
}

/// What the patch tool finds when it looks for the two paths it was given.
#[derive(Clone, Copy, PartialEq, Eq, Debug, Structural)]
pub enum Preflight {
    /// Both are there.
    Ready,
    /// The root directory is not there.
    MissingRoot,
    /// The root directory is there, the universal launcher is not.
    MissingUniversalLauncher,
}

/// Checks the two paths of the patch tool before any bundle is touched: the
/// root directory first, then the universal launcher.
pub fn preflight(root_exists: bool, universal_launcher_exists: bool) -> (r: Preflight)
    ensures
        r == if !root_exists {
            Preflight::MissingRoot
        } else if !universal_launcher_exists {
            Preflight::MissingUniversalLauncher
        } else {
            Preflight::Ready
        },
{
    if !root_exists {
        Preflight::MissingRoot
    } else if !universal_launcher_exists {
        Preflight::MissingUniversalLauncher
    } else {
        Preflight::Ready
    }
}

/// The exit code of a tool: 1 where it stopped before looking at any bundle,
/// because an argument or one of its two paths is missing, else 0. What
/// happened to single bundles does not change it.
pub fn exit_code(arguments_complete: bool, paths: Preflight) -> (code: i32)
    ensures
        code == if arguments_complete && paths == Preflight::Ready {
            0i32
        } else {
            1i32
        },
{
    match paths {
        Preflight::Ready => if arguments_complete {
            0
        } else {
            1
        },
        _ => 1,
    }
}

/// Whether an answer, already trimmed and in lower case, says yes.
pub open spec fn says_yes(answer: Seq<char>) -> bool {
    answer == "y"@ || answer == "yes"@
}

/// Whether a line typed by the user confirms: without the whitespace around
/// it and in lower case it is `y` or `yes`.
pub open spec fn confirms(line: Seq<char>) -> bool {
    says_yes(lowercased(trimmed(line)))
}

/// Whether an answer, already trimmed and in lower case, says yes: it is
/// `y` or `yes`.
pub fn is_yes(answer: &str) -> (r: bool)
    ensures
        r == says_yes(answer@),
{
    str_eq(answer, "y") || str_eq(answer, "yes")
}

/// Whether a line typed by the user confirms the restore.
pub fn confirm_restore(line: &str) -> (r: bool)
    ensures
        r == confirms(line@),
{
    let answer = to_lowercase(trim(line));
    is_yes(answer.as_str())
}

/// A line of the log file: the time between square brackets, a space, and
/// the message.
pub open spec fn log_line_of(timestamp: Seq<char>, message: Seq<char>) -> Seq<char> {
    seq!['['] + timestamp + seq![']', ' '] + message
}

/// A line of the log file: the time between square brackets, a space, and
/// the message.
pub fn log_line(timestamp: &str, message: &str) -> (line: String)
    ensures
        line@ == log_line_of(timestamp@, message@),
{
    proof {
        reveal_strlit("[");
        reveal_strlit("] ");
        assert("["@ =~= seq!['[']);
        assert("] "@ =~= seq![']', ' ']);
    }
    String::from_str("[").concat(timestamp).concat("] ").concat(message)
}

/// How many of `results` are `wanted`.
pub open spec fn count_of(
    results: Seq<Result<Report, PatchError>>,
    wanted: spec_fn(Result<Report, PatchError>) -> bool,
) -> nat
    decreases results.len(),
{
    if results.len() == 0 {
        0
    } else {
        count_of(results.drop_last(), wanted) + if wanted(results.last()) {
            1nat
        } else {
            0nat
        }
    }
}

/// The counts that the final summary reports.
#[derive(Clone, Copy, PartialEq, Eq, Debug, Structural)]
pub struct Summary {
    /// Bundles that were looked at.
    pub found: usize,
    /// Bundles patched for the first time.
    pub newly_patched: usize,
    /// Bundles whose stub was replaced.
    pub updated: usize,
    /// Bundles restored.
    pub restored: usize,
    /// Bundles on which the run failed.
    pub failed: usize,
    /// Bundles that are patched now, for the first time or again.
    pub processed: usize,
}

impl Summary {
    /// The counts are those of `results`.
    pub open spec fn counts(self, results: Seq<Result<Report, PatchError>>) -> bool {
        &&& self.found == results.len()
        &&& self.newly_patched == count_of(
            results,
            |r: Result<Report, PatchError>| r == Ok::<Report, PatchError>(Report::PatchedNewlyCreated),
        )
        &&& self.updated == count_of(
            results,
            |r: Result<Report, PatchError>| r == Ok::<Report, PatchError>(Report::PatchedUpdated),
        )
        &&& self.restored == count_of(
            results,
            |r: Result<Report, PatchError>| r == Ok::<Report, PatchError>(Report::Restored),
        )
        &&& self.failed == count_of(results, |r: Result<Report, PatchError>| r is Err)
        &&& self.processed == self.newly_patched + self.updated
    }
}

/// Counts the outcomes of a batch: one failed bundle does not stop the
/// batch, it is counted.
pub fn summarize(results: &Vec<Result<Report, PatchError>>) -> (summary: Summary)
    ensures
        summary.counts(results@),
        summary.newly_patched + summary.updated + summary.restored + summary.failed
            <= summary.found,
{
    let mut summary = Summary {
        found: 0,
        newly_patched: 0,
        updated: 0,
        restored: 0,
        failed: 0,
        processed: 0,
    };
    let mut i: usize = 0;
    while i < results.len()
        invariant
            i <= results.len(),
            summary.found == i,
            summary.counts(results@.take(i as int)),
            summary.newly_patched + summary.updated + summary.restored + summary.failed <= i,
        decreases results.len() - i,
    {
        proof {
            assert(results@.take(i + 1).drop_last() =~= results@.take(i as int));
            assert(results@.take(i + 1).last() == results@[i as int]);
        }
        match results[i] {
            Ok(Report::PatchedNewlyCreated) => {
                summary.newly_patched += 1;
                summary.processed += 1;
            },
            Ok(Report::PatchedUpdated) => {
                summary.updated += 1;
                summary.processed += 1;
            },
            Ok(Report::Restored) => {
                summary.restored += 1;
            },
            Ok(Report::Launched) => {},
            Err(_) => {
                summary.failed += 1;
            },
        }
        summary.found += 1;
        i += 1;
    }
    proof {
        assert(results@.take(i as int) =~= results@);
    }
    summary
}

} // verus!
