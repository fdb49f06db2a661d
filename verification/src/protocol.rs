//! The vocabulary between the engine and whoever performs its file
//! operations: the operations it asks for, the replies it takes, and the
//! verdicts it reaches.

use vstd::prelude::*;
use vstd::string::*;

verus! {

/// One of the files of a bundle that the engine reads or changes.
#[derive(Clone, Copy, PartialEq, Eq, Hash, Debug, Structural)]
pub enum Slot {
    /// The launcher under its own name.
    Launcher,
    /// The original launcher under its `_original` name.
    Original,
    /// The launcher configuration in use.
    LiveConfig,
    /// The copy of the configuration kept for the original launcher.
    BackupConfig,
}

/// A single operation that the engine asks its caller to perform.
#[derive(Clone, Copy, PartialEq, Eq, Hash, Debug, Structural)]
pub enum Action {
    /// Find out whether the file exists.
    Probe(Slot),
    /// Look for the icon-copy helper beside the running program.
    LocateHelper,
    /// Rename `from` to `to`, replacing `to` where it exists.
    Rename { from: Slot, to: Slot },
    /// Run the helper: write to `output` the universal launcher with the
    /// icons of `icon_source`.
    RunHelper { icon_source: Slot, output: Slot },
    /// Copy the universal launcher byte for byte to `output`.
    PlainCopy { output: Slot },
    /// Give `target` the permission bits of the universal launcher.
    CopyPermissions { target: Slot },
    /// Delete the file.
    Remove(Slot),
    /// Copy `from` over `to`.
    CopyFile { from: Slot, to: Slot },
    /// Remove stale runtime data from the bundle's data directory.
    Scrub,
    /// Start the program without waiting for it.
    Launch(Slot),
}

/// What the caller reports after performing an operation.
#[derive(Clone, Copy, PartialEq, Eq, Hash, Debug, Structural)]
pub enum Reply {
    /// The operation succeeded; for a probe, the file is there.
    Done,
    /// The file or the helper is not there.
    Missing,
    /// The operating system refused the operation.
    IoError,
    /// The helper ran and ended with a non-zero status.
    HelperFailed,
}

/// What a completed run did to the bundle.
#[derive(Clone, Copy, PartialEq, Eq, Hash, Debug, Structural)]
pub enum Report {
    /// The bundle was unpatched and is now patched.
    PatchedNewlyCreated,
    /// The bundle was patched already; its stub was replaced.
    PatchedUpdated,
    /// The original launcher is back under its own name.
    Restored,
    /// The original launcher was started.
    Launched,
}

/// The file operation during which a run failed.
#[derive(Clone, Copy, PartialEq, Eq, Hash, Debug, Structural)]
pub enum Stage {
    /// Moving the launcher aside under its `_original` name.
    RenameOriginal,
    /// Writing the stub of a first-time patch.
    InstallStub,
    /// Replacing the stub of a bundle that was patched before.
    UpdateStub,
    /// Deleting the stub.
    RemoveStub,
    /// Moving the original back under its own name.
    RestoreOriginal,
    /// Copying the live configuration over its backup.
    RefreshBackupConfig,
    /// Starting the original launcher.
    Launch,
}

/// Why a run on one bundle failed.
#[derive(Clone, Copy, PartialEq, Eq, Hash, Debug, Structural)]
pub enum PatchError {
    /// The name handed to a restore lacks the `_original` marker.
    MalformedName,
    /// A restore found no launcher to replace.
    MissingCurrentLauncher,
    /// The stub found no original launcher to start.
    MissingOriginalLauncher,
    /// The icon-copy helper ended with a non-zero status.
    CopyHelperFailure,
    /// The operating system refused a rename, copy, delete or launch.
    IoFailure(Stage),
}

/// What the engine wants next.
#[derive(PartialEq, Eq, Debug)]
pub enum Step<S> {
    /// Perform `action`, then hand the reply and `state` back.
    Continue { state: S, action: Action },
    /// The run is over.
    Finished(Result<Report, PatchError>),
}

/// The error that a failed copy of the universal launcher amounts to.
pub open spec fn copy_failure(reply: Reply, stage: Stage) -> PatchError {
    if reply == Reply::HelperFailed {
        PatchError::CopyHelperFailure
    } else {
        PatchError::IoFailure(stage)
    }
}

/// The error that a failed copy of the universal launcher amounts to: a
/// helper that ended badly is reported as such, anything else as a failure
/// of the operating system at `stage`.
pub fn classify_copy_failure(reply: Reply, stage: Stage) -> (r: PatchError)
    ensures
        r == copy_failure(reply, stage),
{
    match reply {
        Reply::HelperFailed => PatchError::CopyHelperFailure,
        _ => PatchError::IoFailure(stage),
    }
}

/// What went wrong, in words.
pub open spec fn description_of(error: PatchError) -> Seq<char> {
    match error {
        PatchError::MalformedName => "File doesn't match expected '_original.exe' pattern"@,
        PatchError::MissingCurrentLauncher => "Current launcher not found"@,
        PatchError::MissingOriginalLauncher => "Original launcher not found"@,
        PatchError::CopyHelperFailure => "icocop.exe failed"@,
        PatchError::IoFailure(Stage::RenameOriginal) => "failed to rename original launcher"@,
        PatchError::IoFailure(Stage::InstallStub) => "failed to copy universal launcher"@,
        PatchError::IoFailure(Stage::UpdateStub) => "failed to update universal launcher"@,
        PatchError::IoFailure(Stage::RemoveStub) => "Failed to remove universal launcher"@,
        PatchError::IoFailure(Stage::RestoreOriginal) => "Failed to restore original launcher"@,
        PatchError::IoFailure(Stage::RefreshBackupConfig) => "Failed to backup INI file"@,
        PatchError::IoFailure(Stage::Launch) => "Failed to launch original launcher"@,
    }
}

/// What went wrong, in words.
pub fn describe(error: PatchError) -> (r: String)
    ensures
        r@ == description_of(error),
{
    let text = match error {
        PatchError::MalformedName => "File doesn't match expected '_original.exe' pattern",
        PatchError::MissingCurrentLauncher => "Current launcher not found",
        PatchError::MissingOriginalLauncher => "Original launcher not found",
        PatchError::CopyHelperFailure => "icocop.exe failed",
        PatchError::IoFailure(Stage::RenameOriginal) => "failed to rename original launcher",
        PatchError::IoFailure(Stage::InstallStub) => "failed to copy universal launcher",
        PatchError::IoFailure(Stage::UpdateStub) => "failed to update universal launcher",
        PatchError::IoFailure(Stage::RemoveStub) => "Failed to remove universal launcher",
        PatchError::IoFailure(Stage::RestoreOriginal) => "Failed to restore original launcher",
        PatchError::IoFailure(Stage::RefreshBackupConfig) => "Failed to backup INI file",
        PatchError::IoFailure(Stage::Launch) => "Failed to launch original launcher",
    };
    String::from_str(text)
}

} // verus!
