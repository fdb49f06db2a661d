//! What holds of every patch and restore run, proved over the model.

use vstd::prelude::*;
use crate::model::{apply, copy_fails, data_dir, drive, launch, patched, restore, rollback,
    unpatched, Env, Files};
use crate::names::{backup_config_of, base_of, dotted_extension_of, has_original_marker,
    launcher_name_of, launcher_paths, lemma_last_dot_bounds, lemma_last_dot_unique, last_dot,
    original_name_of, original_paths, original_suffix, stem_of};
use crate::protocol::{Action, PatchError, Report, Slot};
use crate::text::is_prefix;

verus! {

/// A launcher and its renamed original never share a name.
pub proof fn lemma_original_differs(name: Seq<char>)
    ensures
        original_name_of(name) != name,
        original_name_of(name).len() == name.len() + 9,
{
    reveal_strlit("_original");
    lemma_last_dot_bounds(name);
}

/// The renamed original has the launcher's stem with the marker behind it,
/// and the launcher's extension.
pub proof fn lemma_original_name_parts(name: Seq<char>)
    ensures
        stem_of(original_name_of(name)) == stem_of(name) + original_suffix(),
        dotted_extension_of(original_name_of(name)) == dotted_extension_of(name),
        has_original_marker(original_name_of(name)),
        base_of(original_name_of(name)) == stem_of(name),
{
    reveal_strlit("_original");
    lemma_last_dot_bounds(name);
    let renamed = original_name_of(name);
    let dot = last_dot(name);
    if dot > 0 {
        assert(renamed[dot + 9] == name[dot]);
        assert forall|j: int| dot + 9 < j < renamed.len() implies renamed[j] != '.' by {
            assert(renamed[j] == name[j - 9]);
        }
        lemma_last_dot_unique(renamed, dot + 9);
    } else {
        assert forall|j: int| dot < j < renamed.len() implies renamed[j] != '.' by {
            if j < name.len() {
                assert(renamed[j] == name[j]);
            } else {
                assert(renamed[j] == original_suffix()[j - name.len()]);
            }
        }
        if dot == 0 {
            assert(renamed[0] == name[0]);
        }
        lemma_last_dot_unique(renamed, dot);
    }
    assert(stem_of(renamed) =~= stem_of(name) + original_suffix());
    assert(dotted_extension_of(renamed) =~= dotted_extension_of(name));
    let stem = stem_of(renamed);
    assert(stem.subrange(stem.len() - original_suffix().len(), stem.len() as int)
        =~= original_suffix());
    assert(base_of(renamed) =~= stem_of(name));
}

/// Deriving the names from the renamed original gives back the names that
/// were derived from the launcher, for a launcher whose extension is `exe`.
pub proof fn law_names_round_trip(name: Seq<char>)
    requires
        dotted_extension_of(name) == ".exe"@,
    ensures
        has_original_marker(original_name_of(name)),
        original_paths(original_name_of(name)) == launcher_paths(name),
{
    lemma_original_name_parts(name);
    lemma_last_dot_bounds(name);
    assert(launcher_name_of(original_name_of(name)) =~= name);
}

/// The launcher, the renamed original and the backup configuration that are
/// derived from a renamed original have three different names.
pub proof fn law_restore_names_distinct(name: Seq<char>)
    requires
        has_original_marker(name),
    ensures
        original_paths(name).distinct(),
{
    reveal_strlit("_original");
    reveal_strlit(".exe");
    reveal_strlit("App/AppInfo/Launcher/");
    reveal_strlit("_original.ini");
    lemma_last_dot_bounds(name);
    let paths = original_paths(name);
    let base = base_of(name);
    let backup = backup_config_of(base);
    assert(paths.launcher.len() == base.len() + 4);
    assert(backup.len() == base.len() + 34);
    assert(name.len() >= base.len() + 9);
    if name == backup {
        let n = backup.len() as int;
        assert(backup[n - 4] == "_original.ini"@[9]);
        assert(backup[n - 3] == "_original.ini"@[10]);
        assert(backup[n - 2] == "_original.ini"@[11]);
        assert(backup[n - 1] == "_original.ini"@[12]);
        lemma_last_dot_unique(backup, n - 4);
    }
}

/// The launcher, the renamed original and the backup configuration that are
/// derived from a launcher have three different names.
pub proof fn law_patch_names_distinct(name: Seq<char>)
    ensures
        launcher_paths(name).distinct(),
{
    reveal_strlit("_original");
    reveal_strlit("App/AppInfo/Launcher/");
    reveal_strlit("_original.ini");
    lemma_last_dot_bounds(name);
    lemma_original_name_parts(name);
    lemma_original_differs(name);
    let stem = stem_of(name);
    let backup = backup_config_of(stem);
    let n = backup.len() as int;
    assert(n == stem.len() + 34);
    assert(backup[n - 4] == "_original.ini"@[9]);
    assert(backup[n - 3] == "_original.ini"@[10]);
    assert(backup[n - 2] == "_original.ini"@[11]);
    assert(backup[n - 1] == "_original.ini"@[12]);
    lemma_last_dot_unique(backup, n - 4);
    assert(stem_of(backup).len() == stem.len() + 30);
    assert(stem_of(original_name_of(name)).len() == stem.len() + 9);
}

/// A name without `/` gives an original without `/`: neither lies in a
/// directory below the launcher's.
pub proof fn lemma_original_is_file_name(name: Seq<char>)
    requires
        !name.contains('/'),
    ensures
        !original_name_of(name).contains('/'),
        !is_prefix(name, data_dir()),
        !is_prefix(original_name_of(name), data_dir()),
{
    reveal_strlit("_original");
    reveal_strlit("Data/");
    lemma_last_dot_bounds(name);
    let renamed = original_name_of(name);
    let split = stem_of(name).len() as int;
    assert forall|j: int| 0 <= j < renamed.len() implies renamed[j] != '/' by {
        if j < split {
            assert(renamed[j] == name[j]);
        } else if j < split + 9 {
            assert(renamed[j] == original_suffix()[j - split]);
        } else {
            assert(renamed[j] == name[j - 9]);
        }
    }
    if is_prefix(name, data_dir()) {
        assert(name.subrange(0, 5)[4] == '/');
        assert(name.contains(name[4]));
    }
    if is_prefix(renamed, data_dir()) {
        assert(renamed.subrange(0, 5)[4] == '/');
    }
}

/// Every patch run comes to an end.
pub proof fn law_apply_finishes(name: Seq<char>, env: Env, files: Files)
    ensures
        apply(name, env, files).result is Some,
{
    reveal_with_fuel(drive, 8);
}

/// Every restore run comes to an end.
pub proof fn law_restore_finishes(name: Seq<char>, env: Env, files: Files)
    ensures
        restore(name, env, files).result is Some,
{
    reveal_with_fuel(drive, 8);
}

/// A patch run on an unpatched bundle that fails leaves every file as it
/// was, as long as the rename that undoes the patch is not itself refused.
pub proof fn law_failed_apply_changes_nothing(name: Seq<char>, env: Env, files: Files)
    requires
        unpatched(launcher_paths(name), files),
        !env.refused.contains(rollback()),
        apply(name, env, files).result matches Some(Err(_)),
    ensures
        apply(name, env, files).files == files,
{
    reveal_with_fuel(drive, 8);
    lemma_original_differs(name);
    assert(apply(name, env, files).files =~= files);
}

/// When writing the stub fails on an unpatched bundle, the run reports an
/// error and the bundle is as it was found: the launcher with its content
/// under its own name, and no renamed original. This needs the rename that
/// undoes the patch to go through.
pub proof fn law_copy_failure_rolls_back(name: Seq<char>, env: Env, files: Files)
    requires
        unpatched(launcher_paths(name), files),
        copy_fails(env),
        !env.refused.contains(rollback()),
    ensures
        apply(name, env, files).result matches Some(Err(_)),
        apply(name, env, files).files == files,
        unpatched(launcher_paths(name), apply(name, env, files).files),
{
    reveal_with_fuel(drive, 8);
    lemma_original_differs(name);
    assert(apply(name, env, files).files =~= files);
}

/// A patch run that succeeds leaves the bundle patched: the launcher and
/// the renamed original both exist.
pub proof fn law_applied_bundle_is_patched(name: Seq<char>, env: Env, files: Files)
    requires
        apply(name, env, files).result matches Some(Ok(_)),
    ensures
        patched(launcher_paths(name), apply(name, env, files).files),
{
    reveal_with_fuel(drive, 8);
    lemma_original_differs(name);
}

/// The first patch of an unpatched bundle reports `PatchedNewlyCreated`,
/// keeps the launcher's bytes under the `_original` name, and puts in the
/// launcher's place what the helper wrote or, without a helper, the bytes
/// of the universal launcher.
pub proof fn law_first_apply_keeps_original_bytes(name: Seq<char>, env: Env, files: Files)
    requires
        unpatched(launcher_paths(name), files),
        apply(name, env, files).result matches Some(Ok(_)),
    ensures
        apply(name, env, files).result == Some(Ok::<Report, PatchError>(Report::PatchedNewlyCreated)),
        apply(name, env, files).files[original_name_of(name)] == files[name],
        apply(name, env, files).files[name] == if env.helper_present {
            env.dressed
        } else {
            env.stub
        },
{
    reveal_with_fuel(drive, 8);
    lemma_original_differs(name);
}

/// A patch run never deletes or changes a renamed original that is there.
pub proof fn law_apply_preserves_original(name: Seq<char>, env: Env, files: Files)
    requires
        files.dom().contains(original_name_of(name)),
    ensures
        apply(name, env, files).files.dom().contains(original_name_of(name)),
        apply(name, env, files).files[original_name_of(name)] == files[original_name_of(name)],
{
    reveal_with_fuel(drive, 8);
    lemma_original_differs(name);
}

/// A patch run touches the launcher and the renamed original and nothing
/// else.
pub proof fn law_apply_touches_two_files(
    name: Seq<char>,
    env: Env,
    files: Files,
    other: Seq<char>,
)
    requires
        other != name,
        other != original_name_of(name),
    ensures
        apply(name, env, files).files.dom().contains(other) == files.dom().contains(other),
        apply(name, env, files).files[other] == files[other],
{
    reveal_with_fuel(drive, 8);
    lemma_original_differs(name);
}

/// Patching a bundle a second time only replaces the stub: the second run
/// reports `PatchedUpdated` unless writing the stub fails, and the renamed
/// original is the same after it as before it, and the same as it was
/// before the first run where one existed already.
pub proof fn law_second_apply_updates(name: Seq<char>, first: Env, second: Env, files: Files)
    requires
        apply(name, first, files).result matches Some(Ok(_)),
    ensures
        ({
            let once = apply(name, first, files);
            let twice = apply(name, second, once.files);
            let original = original_name_of(name);
            &&& twice.result == if copy_fails(second) {
                twice.result
            } else {
                Some(Ok::<Report, PatchError>(Report::PatchedUpdated))
            }
            &&& twice.result != Some(Ok::<Report, PatchError>(Report::PatchedNewlyCreated))
            &&& once.files.dom().contains(original)
            &&& twice.files.dom().contains(original)
            &&& twice.files[original] == once.files[original]
            &&& files.dom().contains(original) ==> once.files[original] == files[original]
        }),
{
    lemma_original_differs(name);
    law_applied_bundle_is_patched(name, first, files);
    if files.dom().contains(original_name_of(name)) {
        law_apply_preserves_original(name, first, files);
    }
    let once = apply(name, first, files);
    law_apply_preserves_original(name, second, once.files);
    assert(apply(name, second, once.files).result != Some(
        Ok::<Report, PatchError>(Report::PatchedNewlyCreated),
    ) && (!copy_fails(second) ==> apply(name, second, once.files).result == Some(
        Ok::<Report, PatchError>(Report::PatchedUpdated),
    ))) by {
        reveal_with_fuel(drive, 8);
    }
}

/// A restore on a name without the `_original` marker fails with
/// `MalformedName` and changes no file.
pub proof fn law_malformed_name_changes_nothing(name: Seq<char>, env: Env, files: Files)
    requires
        !has_original_marker(name),
    ensures
        restore(name, env, files).result == Some(
            Err::<Report, PatchError>(PatchError::MalformedName),
        ),
        restore(name, env, files).files == files,
{
}

/// A restore that finds no launcher fails with `MissingCurrentLauncher` and
/// changes no file.
pub proof fn law_missing_launcher_changes_nothing(name: Seq<char>, env: Env, files: Files)
    requires
        has_original_marker(name),
        !files.dom().contains(launcher_name_of(name)),
    ensures
        restore(name, env, files).result == Some(
            Err::<Report, PatchError>(PatchError::MissingCurrentLauncher),
        ),
        restore(name, env, files).files == files,
{
    reveal_with_fuel(drive, 8);
}

/// A restore that succeeds leaves the bundle unpatched, with the bytes of
/// the renamed original under the launcher's name.
pub proof fn law_restored_bundle_is_unpatched(name: Seq<char>, env: Env, files: Files)
    requires
        restore(name, env, files).result matches Some(Ok(_)),
    ensures
        restore(name, env, files).result == Some(Ok::<Report, PatchError>(Report::Restored)),
        unpatched(original_paths(name), restore(name, env, files).files),
        files.dom().contains(name),
        restore(name, env, files).files[launcher_name_of(name)] == files[name],
{
    reveal_with_fuel(drive, 8);
    law_restore_names_distinct(name);
}

/// The renamed original goes away only at the end of a restore that
/// succeeds: after any other restore it is there as before.
pub proof fn law_failed_restore_preserves_original(name: Seq<char>, env: Env, files: Files)
    requires
        files.dom().contains(name),
        restore(name, env, files).result matches Some(Err(_)),
    ensures
        restore(name, env, files).files.dom().contains(name),
        restore(name, env, files).files[name] == files[name],
{
    reveal_with_fuel(drive, 8);
    if has_original_marker(name) {
        law_restore_names_distinct(name);
    }
}

/// A restore touches the launcher, the renamed original and the backup
/// configuration and nothing else.
pub proof fn law_restore_touches_three_files(
    name: Seq<char>,
    env: Env,
    files: Files,
    other: Seq<char>,
)
    requires
        other != name,
        other != launcher_name_of(name),
        other != backup_config_of(base_of(name)),
    ensures
        restore(name, env, files).files.dom().contains(other) == files.dom().contains(other),
        restore(name, env, files).files[other] == files[other],
{
    reveal_with_fuel(drive, 8);
}

/// Patching an unpatched bundle and then restoring it brings the launcher
/// back with the bytes it had, leaves no renamed original, and leaves no
/// backup configuration unless deleting it was refused. Every other file is
/// as it was. This holds for a launcher whose extension is `exe`, the only
/// one that a restore gives back.
pub proof fn law_round_trip(name: Seq<char>, patching: Env, restoring: Env, files: Files)
    requires
        dotted_extension_of(name) == ".exe"@,
        unpatched(launcher_paths(name), files),
        apply(name, patching, files).result matches Some(Ok(_)),
        restore(original_name_of(name), restoring, apply(name, patching, files).files).result
            matches Some(Ok(_)),
    ensures
        ({
            let after = restore(
                original_name_of(name),
                restoring,
                apply(name, patching, files).files,
            ).files;
            let backup = launcher_paths(name).backup_config;
            &&& after.dom().contains(name)
            &&& after[name] == files[name]
            &&& !after.dom().contains(original_name_of(name))
            &&& !restoring.refused.contains(Action::Remove(Slot::BackupConfig))
                ==> !after.dom().contains(backup)
            &&& after.remove(backup) == files.remove(backup)
        }),
{
    let renamed = original_name_of(name);
    let patched_files = apply(name, patching, files).files;
    let after = restore(renamed, restoring, patched_files).files;
    let backup = launcher_paths(name).backup_config;
    law_names_round_trip(name);
    law_restore_names_distinct(renamed);
    law_first_apply_keeps_original_bytes(name, patching, files);
    law_restored_bundle_is_unpatched(renamed, restoring, patched_files);
    assert(!restoring.refused.contains(Action::Remove(Slot::BackupConfig)) ==> !after.dom().contains(
        backup,
    )) by {
        reveal_with_fuel(drive, 8);
    }
    lemma_original_differs(name);
    assert(launcher_name_of(renamed) == name);
    assert(backup_config_of(base_of(renamed)) == backup);
    let left = after.remove(backup);
    let right = files.remove(backup);
    assert forall|key: Seq<char>| key != backup implies #[trigger] after.dom().contains(key)
        == files.dom().contains(key) && (files.dom().contains(key) ==> after[key]
        == files[key]) by {
        if key != name && key != renamed {
            law_apply_touches_two_files(name, patching, files, key);
            law_restore_touches_three_files(renamed, restoring, patched_files, key);
        }
    }
    assert forall|key: Seq<char>| left.dom().contains(key) == right.dom().contains(key) by {
        if key != backup {
            assert(after.dom().contains(key) == files.dom().contains(key));
        }
    }
    assert forall|key: Seq<char>| left.dom().contains(key) implies left[key] == right[key] by {
        assert(after.dom().contains(key));
    }
    assert(left =~= right);
}

/// Every launch comes to an end.
pub proof fn law_launch_finishes(name: Seq<char>, env: Env, files: Files)
    ensures
        launch(name, env, files).result is Some,
{
    reveal_with_fuel(drive, 8);
}

/// Without an original launcher the stub fails with
/// `MissingOriginalLauncher` and changes no file.
pub proof fn law_launch_needs_original(name: Seq<char>, env: Env, files: Files)
    requires
        !files.dom().contains(original_name_of(name)),
    ensures
        launch(name, env, files).result == Some(
            Err::<Report, PatchError>(PatchError::MissingOriginalLauncher),
        ),
        launch(name, env, files).files == files,
{
    reveal_with_fuel(drive, 8);
}

/// A launch leaves the launcher and the renamed original alone, whatever
/// happens while it clears runtime data and refreshes the backup
/// configuration.
pub proof fn law_launch_preserves_launchers(name: Seq<char>, env: Env, files: Files)
    requires
        !name.contains('/'),
    ensures
        ({
            let after = launch(name, env, files).files;
            let original = original_name_of(name);
            &&& after.dom().contains(name) == files.dom().contains(name)
            &&& files.dom().contains(name) ==> after[name] == files[name]
            &&& after.dom().contains(original) == files.dom().contains(original)
            &&& files.dom().contains(original) ==> after[original] == files[original]
        }),
{
    reveal_with_fuel(drive, 8);
    law_patch_names_distinct(name);
    lemma_original_is_file_name(name);
}

} // verus!
