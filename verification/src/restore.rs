//! Restoring a bundle: the stub is deleted and the original launcher gets its
//! own name back.

use vstd::prelude::*;
use crate::names::{has_original_marker, original_paths, BundleNames};
use crate::protocol::{Action, PatchError, Reply, Report, Slot, Stage, Step};

verus! {

/// Where a restore run stands: the operation that is under way.
#[derive(Clone, Copy, PartialEq, Eq, Debug, Structural)]
pub enum RestoreState {
    /// Asked whether the launcher exists.
    ProbingLauncher,
    /// Asked to delete the stub.
    RemovingStub,
    /// Asked to move the original back under its own name.
    RenamingOriginal,
    /// Asked whether a backup configuration exists.
    ProbingBackup,
    /// Asked to delete the backup configuration.
    RemovingBackup,
}

/// The first step of a restore run.
pub open spec fn restore_first() -> Step<RestoreState> {
    Step::Continue { state: RestoreState::ProbingLauncher, action: Action::Probe(Slot::Launcher) }
}

/// The step that follows when the operation asked for in `state` was
/// answered with `reply`.
pub open spec fn restore_transition(state: RestoreState, reply: Reply) -> Step<RestoreState> {
    match state {
        RestoreState::ProbingLauncher => if reply == Reply::Done {
            Step::Continue {
                state: RestoreState::RemovingStub,
                action: Action::Remove(Slot::Launcher),
            }
        } else {
            Step::Finished(Err(PatchError::MissingCurrentLauncher))
        },
        RestoreState::RemovingStub => if reply == Reply::Done {
            Step::Continue {
                state: RestoreState::RenamingOriginal,
                action: Action::Rename { from: Slot::Original, to: Slot::Launcher },
            }
        } else {
            Step::Finished(Err(PatchError::IoFailure(Stage::RemoveStub)))
        },
        RestoreState::RenamingOriginal => if reply == Reply::Done {
            Step::Continue {
                state: RestoreState::ProbingBackup,
                action: Action::Probe(Slot::BackupConfig),
            }
        } else {
            Step::Finished(Err(PatchError::IoFailure(Stage::RestoreOriginal)))
        },
        RestoreState::ProbingBackup => if reply == Reply::Done {
            Step::Continue {
                state: RestoreState::RemovingBackup,
                action: Action::Remove(Slot::BackupConfig),
            }
        } else {
            Step::Finished(Ok(Report::Restored))
        },
        RestoreState::RemovingBackup => Step::Finished(Ok(Report::Restored)),
    }
}

/// Starts a restore run: the first thing to find out is whether there is a
/// launcher to replace.
pub fn restore_start() -> (step: Step<RestoreState>)
    ensures
        step == restore_first(),
{
    Step::Continue { state: RestoreState::ProbingLauncher, action: Action::Probe(Slot::Launcher) }
}

/// Begins to restore the bundle whose renamed original is called
/// `original_name`: gives the names of the files involved and the first step.
/// Fails with `MalformedName`, before anything is asked of the disk, exactly
/// when the stem of the name lacks the `_original` marker.
pub fn restore_app_launcher(original_name: &str) -> (r: Result<
    (BundleNames, Step<RestoreState>),
    PatchError,
>)
    ensures
        match r {
            Ok((names, step)) => has_original_marker(original_name@) && names@ == original_paths(
                original_name@,
            ) && step == restore_first(),
            Err(e) => !has_original_marker(original_name@) && e == PatchError::MalformedName,
        },
{
    match BundleNames::for_original(original_name) {
        Ok(names) => Ok((names, restore_start())),
        Err(e) => Err(e),
    }
}

/// Takes the reply to the operation asked for in `state` and decides what
/// comes next.
///
/// Without a launcher to replace the run stops before anything is changed.
/// Otherwise the stub is deleted, then the original renamed; a failure of
/// either ends the run with an error and nothing is undone. The backup
/// configuration is deleted where it exists, and failing to do so is not an
/// error.
pub fn restore_step(state: RestoreState, reply: Reply) -> (step: Step<RestoreState>)
    ensures
        step == restore_transition(state, reply),
{
    match state {
        RestoreState::ProbingLauncher => match reply {
            Reply::Done => Step::Continue {
                state: RestoreState::RemovingStub,
                action: Action::Remove(Slot::Launcher),
            },
            _ => Step::Finished(Err(PatchError::MissingCurrentLauncher)),
        },
        RestoreState::RemovingStub => match reply {
            Reply::Done => Step::Continue {
                state: RestoreState::RenamingOriginal,
                action: Action::Rename { from: Slot::Original, to: Slot::Launcher },
            },
            _ => Step::Finished(Err(PatchError::IoFailure(Stage::RemoveStub))),
        },
        RestoreState::RenamingOriginal => match reply {
            Reply::Done => Step::Continue {
                state: RestoreState::ProbingBackup,
                action: Action::Probe(Slot::BackupConfig),
            },
            _ => Step::Finished(Err(PatchError::IoFailure(Stage::RestoreOriginal))),
        },
        RestoreState::ProbingBackup => match reply {
            Reply::Done => Step::Continue {
                state: RestoreState::RemovingBackup,
                action: Action::Remove(Slot::BackupConfig),
            },
            _ => Step::Finished(Ok(Report::Restored)),
        },
        RestoreState::RemovingBackup => Step::Finished(Ok(Report::Restored)),
    }
}

} // verus!
