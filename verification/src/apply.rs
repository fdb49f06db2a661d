//! Patching a bundle: the launcher is moved aside and a stub takes its place.
//! A bundle that is patched already only gets a fresh stub.

use vstd::prelude::*;
use crate::names::{launcher_paths, BundleNames};
use crate::protocol::{Action, PatchError, Reply, Report, Slot, Stage, Step, copy_failure,
    classify_copy_failure};

verus! {

/// Where a patch run stands: the operation that is under way.
#[derive(Clone, Copy, PartialEq, Eq, Debug, Structural)]
pub enum ApplyState {
    /// Asked whether the `_original` file exists.
    ProbingOriginal,
    /// Asked to move the launcher aside.
    Renaming,
    /// Asked for the helper; `fresh` tells a first-time patch from an update.
    LocatingHelper { fresh: bool },
    /// Asked to write the stub.
    Copying { fresh: bool },
    /// Asked to move the original back after the copy failed with `cause`.
    RollingBack { cause: PatchError },
    /// Asked to set the permission bits of the new stub.
    SettingPermissions,
}

/// The first step of a patch run.
pub open spec fn apply_first() -> Step<ApplyState> {
    Step::Continue { state: ApplyState::ProbingOriginal, action: Action::Probe(Slot::Original) }
}

/// The operation that writes the stub, with or without the helper.
pub open spec fn copy_action(helper_found: bool) -> Action {
    if helper_found {
        Action::RunHelper { icon_source: Slot::Original, output: Slot::Launcher }
    } else {
        Action::PlainCopy { output: Slot::Launcher }
    }
}

/// The step that follows when the operation asked for in `state` was
/// answered with `reply`.
pub open spec fn apply_transition(state: ApplyState, reply: Reply) -> Step<ApplyState> {
    match state {
        ApplyState::ProbingOriginal => if reply == Reply::Done {
            Step::Continue {
                state: ApplyState::LocatingHelper { fresh: false },
                action: Action::LocateHelper,
            }
        } else {
            Step::Continue {
                state: ApplyState::Renaming,
                action: Action::Rename { from: Slot::Launcher, to: Slot::Original },
            }
        },
        ApplyState::Renaming => if reply == Reply::Done {
            Step::Continue {
                state: ApplyState::LocatingHelper { fresh: true },
                action: Action::LocateHelper,
            }
        } else {
            Step::Finished(Err(PatchError::IoFailure(Stage::RenameOriginal)))
        },
        ApplyState::LocatingHelper { fresh } => Step::Continue {
            state: ApplyState::Copying { fresh },
            action: copy_action(reply == Reply::Done),
        },
        ApplyState::Copying { fresh } => if reply == Reply::Done {
            if fresh {
                Step::Continue {
                    state: ApplyState::SettingPermissions,
                    action: Action::CopyPermissions { target: Slot::Launcher },
                }
            } else {
                Step::Finished(Ok(Report::PatchedUpdated))
            }
        } else if fresh {
            Step::Continue {
                state: ApplyState::RollingBack { cause: copy_failure(reply, Stage::InstallStub) },
                action: Action::Rename { from: Slot::Original, to: Slot::Launcher },
            }
        } else {
            Step::Finished(Err(copy_failure(reply, Stage::UpdateStub)))
        },
        ApplyState::RollingBack { cause } => Step::Finished(Err(cause)),
        ApplyState::SettingPermissions => Step::Finished(Ok(Report::PatchedNewlyCreated)),
    }
}

/// Starts a patch run: the first thing to find out is whether the bundle has
/// an `_original` file, that is, whether it is patched already.
pub fn apply_start() -> (step: Step<ApplyState>)
    ensures
        step == apply_first(),
{
    Step::Continue { state: ApplyState::ProbingOriginal, action: Action::Probe(Slot::Original) }
}

/// Begins to patch the bundle whose launcher is called `launcher_name`:
/// gives the names of the files involved and the first step.
pub fn replace_app_launcher(launcher_name: &str) -> (r: (BundleNames, Step<ApplyState>))
    ensures
        r.0@ == launcher_paths(launcher_name@),
        r.1 == apply_first(),
{
    (BundleNames::for_launcher(launcher_name), apply_start())
}

/// Takes the reply to the operation asked for in `state` and decides what
/// comes next.
///
/// An unpatched bundle has its launcher renamed and the stub written in its
/// place; when writing fails the rename is undone before the error is
/// reported. A patched bundle only has its stub written again. The stub is
/// written by the helper where it is found, by a plain copy where it is not.
/// Failing to set the permission bits is not an error.
pub fn apply_step(state: ApplyState, reply: Reply) -> (step: Step<ApplyState>)
    ensures
        step == apply_transition(state, reply),
{
    match state {
        ApplyState::ProbingOriginal => match reply {
            Reply::Done => Step::Continue {
                state: ApplyState::LocatingHelper { fresh: false },
                action: Action::LocateHelper,
            },
            _ => Step::Continue {
                state: ApplyState::Renaming,
                action: Action::Rename { from: Slot::Launcher, to: Slot::Original },
            },
        },
        ApplyState::Renaming => match reply {
            Reply::Done => Step::Continue {
                state: ApplyState::LocatingHelper { fresh: true },
                action: Action::LocateHelper,
            },
            _ => Step::Finished(Err(PatchError::IoFailure(Stage::RenameOriginal))),
        },
        ApplyState::LocatingHelper { fresh } => {
            let action = match reply {
                Reply::Done => Action::RunHelper {
                    icon_source: Slot::Original,
                    output: Slot::Launcher,
                },
                _ => Action::PlainCopy { output: Slot::Launcher },
            };
            Step::Continue { state: ApplyState::Copying { fresh }, action }
        },
        ApplyState::Copying { fresh } => match reply {
            Reply::Done => if fresh {
                Step::Continue {
                    state: ApplyState::SettingPermissions,
                    action: Action::CopyPermissions { target: Slot::Launcher },
                }
            } else {
                Step::Finished(Ok(Report::PatchedUpdated))
            },
            _ => if fresh {
                Step::Continue {
                    state: ApplyState::RollingBack {
                        cause: classify_copy_failure(reply, Stage::InstallStub),
                    },
                    action: Action::Rename { from: Slot::Original, to: Slot::Launcher },
                }
            } else {
                Step::Finished(Err(classify_copy_failure(reply, Stage::UpdateStub)))
            },
        },
        ApplyState::RollingBack { cause } => Step::Finished(Err(cause)),
        ApplyState::SettingPermissions => Step::Finished(Ok(Report::PatchedNewlyCreated)),
    }
}

/// The file name of the icon-copy helper, which lies beside the program
/// that uses it.
pub const HELPER_FILE_NAME: &'static str = "icocop.exe";

/// The arguments of the icon-copy helper: the file to take the icons from,
/// the file to copy, and the file to write, in that order. The caller
/// chooses how a path is held, so that none has to pass through text.
pub fn helper_arguments<P>(icon_source: P, payload: P, output: P) -> (args: Vec<P>)
    ensures
        args@ == seq![icon_source, payload, output],
{
    let mut args: Vec<P> = Vec::new();
    args.push(icon_source);
    args.push(payload);
    args.push(output);
    assert(args@ =~= seq![icon_source, payload, output]);
    args
}

} // verus!
