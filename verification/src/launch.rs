//! What the stub does when it is started in place of a launcher: it clears
//! stale runtime data, refreshes the backup of the launcher configuration and
//! starts the original launcher.

use vstd::prelude::*;
use vstd::string::*;
use crate::names::{launcher_paths, BundleNames};
use crate::protocol::{Action, PatchError, Reply, Report, Slot, Stage, Step};
use crate::text::contains_char;

verus! {

/// Where a launch stands: the operation that is under way.
#[derive(Clone, Copy, PartialEq, Eq, Debug, Structural)]
pub enum LaunchState {
    /// Asked whether the original launcher exists.
    ProbingOriginal,
    /// Asked to clear stale runtime data.
    Scrubbing,
    /// Asked whether a live configuration exists.
    ProbingConfig,
    /// Asked to copy the live configuration over its backup.
    RefreshingBackup,
    /// Asked to start the original launcher.
    Launching,
}

/// The first step of a launch.
pub open spec fn launch_first() -> Step<LaunchState> {
    Step::Continue { state: LaunchState::ProbingOriginal, action: Action::Probe(Slot::Original) }
}

/// The step that follows when the operation asked for in `state` was
/// answered with `reply`.
pub open spec fn launch_transition(state: LaunchState, reply: Reply) -> Step<LaunchState> {
    match state {
        LaunchState::ProbingOriginal => if reply == Reply::Done {
            Step::Continue { state: LaunchState::Scrubbing, action: Action::Scrub }
        } else {
            Step::Finished(Err(PatchError::MissingOriginalLauncher))
        },
        LaunchState::Scrubbing => Step::Continue {
            state: LaunchState::ProbingConfig,
            action: Action::Probe(Slot::LiveConfig),
        },
        LaunchState::ProbingConfig => if reply == Reply::Done {
            Step::Continue {
                state: LaunchState::RefreshingBackup,
                action: Action::CopyFile { from: Slot::LiveConfig, to: Slot::BackupConfig },
            }
        } else {
            Step::Continue { state: LaunchState::Launching, action: Action::Launch(Slot::Original) }
        },
        LaunchState::RefreshingBackup => if reply == Reply::Done {
            Step::Continue { state: LaunchState::Launching, action: Action::Launch(Slot::Original) }
        } else {
            Step::Finished(Err(PatchError::IoFailure(Stage::RefreshBackupConfig)))
        },
        LaunchState::Launching => if reply == Reply::Done {
            Step::Finished(Ok(Report::Launched))
        } else {
            Step::Finished(Err(PatchError::IoFailure(Stage::Launch)))
        },
    }
}

/// Starts a launch: the first thing to find out is whether the original
/// launcher is there.
pub fn launch_start() -> (step: Step<LaunchState>)
    ensures
        step == launch_first(),
{
    Step::Continue { state: LaunchState::ProbingOriginal, action: Action::Probe(Slot::Original) }
}

/// Begins a launch by the stub that runs under the name `own_name`: gives
/// the names of the files involved and the first step.
pub fn launch_original(own_name: &str) -> (r: (BundleNames, Step<LaunchState>))
    ensures
        r.0@ == launcher_paths(own_name@),
        r.1 == launch_first(),
{
    (BundleNames::for_launcher(own_name), launch_start())
}

/// Takes the reply to the operation asked for in `state` and decides what
/// comes next.
///
/// Without an original launcher the launch fails at once. Clearing runtime
/// data cannot fail the launch. The backup configuration is refreshed where
/// a live one exists, and a failure to do so ends the launch; so does a
/// failure to start the original.
pub fn launch_step(state: LaunchState, reply: Reply) -> (step: Step<LaunchState>)
    ensures
        step == launch_transition(state, reply),
{
    match state {
        LaunchState::ProbingOriginal => match reply {
            Reply::Done => Step::Continue { state: LaunchState::Scrubbing, action: Action::Scrub },
            _ => Step::Finished(Err(PatchError::MissingOriginalLauncher)),
        },
        LaunchState::Scrubbing => Step::Continue {
            state: LaunchState::ProbingConfig,
            action: Action::Probe(Slot::LiveConfig),
        },
        LaunchState::ProbingConfig => match reply {
            Reply::Done => Step::Continue {
                state: LaunchState::RefreshingBackup,
                action: Action::CopyFile { from: Slot::LiveConfig, to: Slot::BackupConfig },
            },
            _ => Step::Continue {
                state: LaunchState::Launching,
                action: Action::Launch(Slot::Original),
            },
        },
        LaunchState::RefreshingBackup => match reply {
            Reply::Done => Step::Continue {
                state: LaunchState::Launching,
                action: Action::Launch(Slot::Original),
            },
            _ => Step::Finished(Err(PatchError::IoFailure(Stage::RefreshBackupConfig))),
        },
        LaunchState::Launching => match reply {
            Reply::Done => Step::Finished(Ok(Report::Launched)),
            _ => Step::Finished(Err(PatchError::IoFailure(Stage::Launch))),
        },
    }
}

/// `text` between double quotes.
pub open spec fn quoted(text: Seq<char>) -> Seq<char> {
    seq!['"'] + text + seq!['"']
}

/// An argument as it stands on a command line: between double quotes where
/// it holds a space, bare where it does not.
pub open spec fn quoted_if_spaced(arg: Seq<char>) -> Seq<char> {
    if arg.contains(' ') {
        quoted(arg)
    } else {
        arg
    }
}

/// The arguments on a command line, each with a space before it.
pub open spec fn argument_tail(args: Seq<String>) -> Seq<char>
    decreases args.len(),
{
    if args.len() == 0 {
        Seq::empty()
    } else {
        argument_tail(args.drop_last()) + seq![' '] + quoted_if_spaced(args.last()@)
    }
}

/// The command line that starts `program` with `args`.
pub open spec fn command_line_of(program: Seq<char>, args: Seq<String>) -> Seq<char> {
    quoted(program) + argument_tail(args)
}

/// `text` between double quotes.
pub fn quote(text: &str) -> (r: String)
    ensures
        r@ == quoted(text@),
{
    proof {
        reveal_strlit("\"");
        assert("\""@ =~= seq!['"']);
    }
    String::from_str("\"").concat(text).concat("\"")
}

/// The command line that starts `program` with `args`: the program between
/// double quotes, then each argument after a space, between double quotes
/// where it holds a space.
pub fn command_line(program: &str, args: &Vec<String>) -> (line: String)
    ensures
        line@ == command_line_of(program@, args@),
{
    let mut line = quote(program);
    let mut i: usize = 0;
    proof {
        assert(line@ =~= quoted(program@) + argument_tail(args@.take(0)));
    }
    while i < args.len()
        invariant
            i <= args.len(),
            line@ == quoted(program@) + argument_tail(args@.take(i as int)),
        decreases args.len() - i,
    {
        let ghost before = line@;
        let arg = args[i].as_str();
        proof {
            reveal_strlit(" ");
            assert(" "@ =~= seq![' ']);
            assert(args@.take(i + 1).drop_last() =~= args@.take(i as int));
            assert(args@.take(i + 1).last() == args@[i as int]);
        }
        line.append(" ");
        if contains_char(arg, ' ') {
            let wrapped = quote(arg);
            line.append(wrapped.as_str());
        } else {
            line.append(arg);
        }
        proof {
            assert(line@ =~= before + seq![' '] + quoted_if_spaced(arg@));
            assert(line@ =~= quoted(program@) + argument_tail(args@.take(i + 1)));
        }
        i += 1;
    }
    proof {
        assert(args@.take(i as int) =~= args@);
    }
    line
}

} // verus!
