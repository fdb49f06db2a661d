//! A model of the bundle's files and of whoever performs the engine's
//! operations on them. It is ghost code and never runs: the properties in
//! `laws` are stated over it.

use vstd::prelude::*;
use crate::apply::{apply_first, apply_transition, ApplyState};
use crate::names::{has_original_marker, launcher_paths, original_paths, Paths};
use crate::protocol::{Action, PatchError, Reply, Report, Slot, Step};
use crate::launch::{launch_first, launch_transition, LaunchState};
use crate::restore::{restore_first, restore_transition, RestoreState};
use crate::text::is_prefix;

verus! {

/// The files below the launcher's directory: relative path to content.
pub type Files = Map<Seq<char>, Seq<u8>>;

/// Everything about a run that the engine does not decide.
pub struct Env {
    /// The icon-copy helper lies beside the running program.
    pub helper_present: bool,
    /// The helper can be started.
    pub helper_starts: bool,
    /// The operations that fail.
    pub refused: Set<Action>,
    /// The bytes of the universal launcher.
    pub stub: Seq<u8>,
    /// What the helper writes: the universal launcher with borrowed icons.
    pub dressed: Seq<u8>,
    /// What a failed write leaves behind at its destination, if anything.
    pub debris: Option<Seq<u8>>,
    /// The runtime data that a scrub finds and deletes.
    pub stale: Set<Seq<char>>,
}

/// How a run ended and what it left on disk.
pub struct Outcome {
    pub files: Files,
    /// `None` where the run was cut off before it finished.
    pub result: Option<Result<Report, PatchError>>,
}

/// The directory that holds a bundle's runtime data, with a trailing `/`.
pub open spec fn data_dir() -> Seq<char> {
    "Data/"@
}

/// The files after a write to `path` failed.
pub open spec fn after_failed_write(env: Env, files: Files, path: Seq<char>) -> Files {
    match env.debris {
        Some(bytes) => files.insert(path, bytes),
        None => files,
    }
}

/// The files after `action` was performed, and the reply to it.
pub open spec fn perform(paths: Paths, env: Env, files: Files, action: Action) -> (Files, Reply) {
    let refused = env.refused.contains(action);
    match action {
        Action::Probe(slot) => if files.dom().contains(paths.path(slot)) {
            (files, Reply::Done)
        } else {
            (files, Reply::Missing)
        },
        Action::LocateHelper => if env.helper_present {
            (files, Reply::Done)
        } else {
            (files, Reply::Missing)
        },
        Action::Rename { from, to } => {
            let source = paths.path(from);
            if refused || !files.dom().contains(source) {
                (files, Reply::IoError)
            } else {
                (files.remove(source).insert(paths.path(to), files[source]), Reply::Done)
            }
        },
        Action::RunHelper { icon_source, output } => if !env.helper_starts {
            (files, Reply::IoError)
        } else if refused || !files.dom().contains(paths.path(icon_source)) {
            (after_failed_write(env, files, paths.path(output)), Reply::HelperFailed)
        } else {
            (files.insert(paths.path(output), env.dressed), Reply::Done)
        },
        Action::PlainCopy { output } => if refused {
            (after_failed_write(env, files, paths.path(output)), Reply::IoError)
        } else {
            (files.insert(paths.path(output), env.stub), Reply::Done)
        },
        Action::CopyPermissions { target } => if refused {
            (files, Reply::IoError)
        } else {
            (files, Reply::Done)
        },
        Action::Remove(slot) => if refused || !files.dom().contains(paths.path(slot)) {
            (files, Reply::IoError)
        } else {
            (files.remove(paths.path(slot)), Reply::Done)
        },
        Action::CopyFile { from, to } => {
            let source = paths.path(from);
            if !files.dom().contains(source) {
                (files, Reply::IoError)
            } else if refused {
                (after_failed_write(env, files, paths.path(to)), Reply::IoError)
            } else {
                (files.insert(paths.path(to), files[source]), Reply::Done)
            }
        },
        Action::Scrub => (
            files.remove_keys(Set::new(|p: Seq<char>| is_prefix(p, data_dir()) && env.stale.contains(p))),
            Reply::Done,
        ),
        Action::Launch(slot) => if refused || !files.dom().contains(paths.path(slot)) {
            (files, Reply::IoError)
        } else {
            (files, Reply::Done)
        },
    }
}

/// Runs an engine from `step` on: each operation it asks for is performed on
/// the files and the reply handed back, for at most `fuel` operations.
pub open spec fn drive<S>(
    paths: Paths,
    env: Env,
    files: Files,
    step: Step<S>,
    next: spec_fn(S, Reply) -> Step<S>,
    fuel: nat,
) -> Outcome
    decreases fuel,
{
    match step {
        Step::Finished(result) => Outcome { files, result: Some(result) },
        Step::Continue { state, action } => if fuel == 0 {
            Outcome { files, result: None }
        } else {
            let (changed, reply) = perform(paths, env, files, action);
            drive(paths, env, changed, next(state, reply), next, (fuel - 1) as nat)
        },
    }
}

/// More operations than any run asks for.
pub open spec fn step_budget() -> nat {
    8
}

/// A whole patch run on the bundle whose launcher is called `name`.
pub open spec fn apply(name: Seq<char>, env: Env, files: Files) -> Outcome {
    drive(
        launcher_paths(name),
        env,
        files,
        apply_first(),
        |state: ApplyState, reply: Reply| apply_transition(state, reply),
        step_budget(),
    )
}

/// A whole restore run on the renamed original called `name`.
pub open spec fn restore(name: Seq<char>, env: Env, files: Files) -> Outcome {
    if has_original_marker(name) {
        drive(
            original_paths(name),
            env,
            files,
            restore_first(),
            |state: RestoreState, reply: Reply| restore_transition(state, reply),
            step_budget(),
        )
    } else {
        Outcome { files, result: Some(Err(PatchError::MalformedName)) }
    }
}

/// A whole launch by the stub that stands in for the launcher called `name`.
pub open spec fn launch(name: Seq<char>, env: Env, files: Files) -> Outcome {
    drive(
        launcher_paths(name),
        env,
        files,
        launch_first(),
        |state: LaunchState, reply: Reply| launch_transition(state, reply),
        step_budget(),
    )
}

/// The bundle is unpatched: it has a launcher and no renamed original.
pub open spec fn unpatched(paths: Paths, files: Files) -> bool {
    files.dom().contains(paths.launcher) && !files.dom().contains(paths.original)
}

/// The bundle is patched: it has a launcher and a renamed original.
pub open spec fn patched(paths: Paths, files: Files) -> bool {
    files.dom().contains(paths.launcher) && files.dom().contains(paths.original)
}

/// Writing the stub fails, whichever way it is written.
pub open spec fn copy_fails(env: Env) -> bool {
    if env.helper_present {
        !env.helper_starts || env.refused.contains(
            Action::RunHelper { icon_source: Slot::Original, output: Slot::Launcher },
        )
    } else {
        env.refused.contains(Action::PlainCopy { output: Slot::Launcher })
    }
}

/// The rename that undoes a first-time patch.
pub open spec fn rollback() -> Action {
    Action::Rename { from: Slot::Original, to: Slot::Launcher }
}

} // verus!
