//! What holds of every notification, every catalog and every way the store
//! may answer.
//!
//! A law speaks of a task, of the catalog that the store holds when the task
//! starts, and of a run: the replies that came in, each with the catalog as it
//! was by then. `completes` admits every run in which the store answers
//! within its contract, failures included; `completes_well` admits those in
//! which it does not fail.

use vstd::prelude::*;
use crate::catalog::{Catalog, FileId, FileRow, WorkId};
use crate::daemon::ScannerDaemon;
use crate::event::{NotificationView, PathKind};
use crate::exchange::{ReplyView, RequestView};
use crate::outcome::OutcomeView;
use crate::store::{catalog_after, lemma_first_exchange, lemma_first_exchange_well, Exchange};
use crate::task::TaskView;

verus! {

/// The removal of a path that the catalog does not track changes nothing and
/// is no failure: the store is asked for the record at most once, is asked to
/// change nothing, and holds afterwards what it held before.
pub proof fn law_remove_untracked_is_noop(
    catalog: Catalog,
    path: Option<Seq<char>>,
    run: Seq<Exchange>,
)
    requires
        path matches Some(text) ==> !catalog.tracks(text),
        TaskView::removal(path).completes(catalog, run),
    ensures
        catalog_after(catalog, run) == catalog,
        TaskView::removal(path).after(run) == TaskView::Finished(OutcomeView::Untracked),
        !OutcomeView::Untracked.is_failure(),
        run.len() <= 1,
        forall|i: int|
            0 <= i < TaskView::removal(path).requests(run).len()
                ==> !(#[trigger] TaskView::removal(path).requests(run)[i]).is_mutation(),
{
    reveal_with_fuel(TaskView::admits, 3);
    reveal_with_fuel(TaskView::after, 3);
    reveal_with_fuel(TaskView::requests, 3);
}

/// The renaming of a path that the catalog does not track changes nothing and
/// is no failure, whatever the new path is.
pub proof fn law_rename_untracked_is_noop(
    catalog: Catalog,
    from: Option<Seq<char>>,
    to: Option<Seq<char>>,
    run: Seq<Exchange>,
)
    requires
        from matches Some(text) ==> !catalog.tracks(text),
        TaskView::renaming(from, to).completes(catalog, run),
    ensures
        catalog_after(catalog, run) == catalog,
        TaskView::renaming(from, to).after(run) == TaskView::Finished(OutcomeView::Untracked),
        !OutcomeView::Untracked.is_failure(),
        run.len() <= 1,
        forall|i: int|
            0 <= i < TaskView::renaming(from, to).requests(run).len()
                ==> !(#[trigger] TaskView::renaming(from, to).requests(run)[i]).is_mutation(),
{
    reveal_with_fuel(TaskView::admits, 3);
    reveal_with_fuel(TaskView::after, 3);
    reveal_with_fuel(TaskView::requests, 3);
}

/// `after` is `before` without the record `file`, and at most without the
/// work of that record too, where no file was left to it.
pub open spec fn removed(before: Catalog, file: FileId, after: Catalog) -> bool {
    let left = before.without_file(file);
    let work = before.files[file].work;
    after == left || (left.is_ghost(work) && after == left.without_work(work))
}

/// However the store answers, a removal deletes nothing but the record that
/// the lookup found under the removed path, and after it nothing but that
/// record's work, and the work only if the deletion left it without files.
pub proof fn law_remove_deletes_only_what_it_found(
    catalog: Catalog,
    path: Seq<char>,
    run: Seq<Exchange>,
)
    requires
        TaskView::removal(Some(path)).completes(catalog, run),
    ensures
        catalog_after(catalog, run) == catalog || exists|file: FileId|
            #[trigger] catalog.holds(file, path) && removed(
                catalog,
                file,
                catalog_after(catalog, run),
            ),
        TaskView::removal(Some(path)).after(run)->Finished_0.is_failure()
            ==> TaskView::removal(Some(path)).after(run)->Finished_0 is FileNotRemoved
            || TaskView::removal(Some(path)).after(run)->Finished_0 is WorkNotRemoved,
        TaskView::removal(Some(path)).after(run)->Finished_0 is FileNotRemoved
            ==> catalog_after(catalog, run) == catalog,
{
    let task = TaskView::removal(Some(path));
    lemma_first_exchange(task, catalog, run);
    let owning = task.resume(run[0].reply);
    let run1 = run.drop_first();
    if let ReplyView::File(Some(file)) = run[0].reply {
        let work = catalog.files[file].work;
        let left = catalog.without_file(file);
        assert(catalog.holds(file, path));
        lemma_first_exchange(owning, catalog, run1);
        let deleting = owning.resume(run1[0].reply);
        let run2 = run1.drop_first();
        lemma_first_exchange(deleting, catalog, run2);
        let listing = deleting.resume(run2[0].reply);
        let run3 = run2.drop_first();
        if listing is Listing {
            lemma_first_exchange(listing, left, run3);
            let purging = listing.resume(run3[0].reply);
            let run4 = run3.drop_first();
            if purging is DeletingWork {
                let files = run3[0].reply->Files_0->0;
                assert forall|other: FileId| !left.owns(work, other) by {
                    if left.owns(work, other) {
                        assert(files.contains(other));
                    }
                }
                lemma_first_exchange(purging, left, run4);
            }
        }
    }
}

/// However the store answers, a renaming changes nothing but the stored path
/// of the record that the lookup found under the old path, and changes it to
/// the new path. Where the store refuses, or the new path has no text form,
/// nothing is changed.
pub proof fn law_rename_changes_only_what_it_found(
    catalog: Catalog,
    from: Seq<char>,
    to: Option<Seq<char>>,
    run: Seq<Exchange>,
)
    requires
        TaskView::renaming(Some(from), to).completes(catalog, run),
    ensures
        catalog_after(catalog, run) == catalog || exists|file: FileId|
            {
                &&& #[trigger] catalog.holds(file, from)
                &&& to is Some
                &&& catalog_after(catalog, run) == catalog.with_path(file, to->0)
            },
        TaskView::renaming(Some(from), to).after(run)->Finished_0.is_failure() ==> catalog_after(
            catalog,
            run,
        ) == catalog,
{
    let task = TaskView::renaming(Some(from), to);
    lemma_first_exchange(task, catalog, run);
    let updating = task.resume(run[0].reply);
    if let ReplyView::File(Some(file)) = run[0].reply {
        assert(catalog.holds(file, from));
        if updating is Updating {
            lemma_first_exchange(updating, catalog, run.drop_first());
        }
    }
}

/// What the removal of a tracked path comes to when the store does not fail:
/// the record is deleted, and its work too where the record was the work's
/// last, and nothing else is changed.
pub proof fn law_remove_tracked(catalog: Catalog, file: FileId, run: Seq<Exchange>)
    requires
        catalog.well_formed(),
        catalog.has_file(file),
        TaskView::removal(Some(catalog.files[file].path)).completes_well(catalog, run),
    ensures
        ({
            let task = TaskView::removal(Some(catalog.files[file].path));
            let work = catalog.files[file].work;
            let left = catalog.without_file(file);
            if left.is_ghost(work) {
                &&& catalog_after(catalog, run) == left.without_work(work)
                &&& task.after(run) == TaskView::Finished(OutcomeView::WorkRemoved { file, work })
            } else {
                &&& catalog_after(catalog, run) == left
                &&& task.after(run) == TaskView::Finished(OutcomeView::FileRemoved { file })
            }
        }),
{
    let task = TaskView::removal(Some(catalog.files[file].path));
    let work = catalog.files[file].work;
    let left = catalog.without_file(file);
    // The lookup finds the record, and no other: no path is stored twice.
    assert(catalog.holds(file, catalog.files[file].path));
    lemma_first_exchange_well(task, catalog, run);
    let owning = task.resume(run[0].reply);
    let run1 = run.drop_first();
    // The owner is found: every file's work is in the catalog.
    lemma_first_exchange_well(owning, catalog, run1);
    let deleting = owning.resume(run1[0].reply);
    let run2 = run1.drop_first();
    // The record is deleted.
    lemma_first_exchange_well(deleting, catalog, run2);
    let listing = deleting.resume(run2[0].reply);
    let run3 = run2.drop_first();
    // The listing comes back, empty exactly where the work has no file left.
    lemma_first_exchange_well(listing, left, run3);
    let purging = listing.resume(run3[0].reply);
    let run4 = run3.drop_first();
    let files = run3[0].reply->Files_0->0;
    if files.len() == 0 {
        assert forall|other: FileId| !left.owns(work, other) by {
            if left.owns(work, other) {
                assert(files.contains(other));
            }
        }
        lemma_first_exchange_well(purging, left, run4);
    } else {
        assert(files.contains(files[0]));
        assert(left.owns(work, files[0]));
    }
}

/// Removing a tracked file whose work has another file deletes that file's
/// record and nothing else: the work stays, and so does every other file.
pub proof fn law_remove_keeps_shared_work(
    catalog: Catalog,
    file: FileId,
    other: FileId,
    run: Seq<Exchange>,
)
    requires
        catalog.well_formed(),
        catalog.has_file(file),
        other != file,
        catalog.owns(catalog.files[file].work, other),
        TaskView::removal(Some(catalog.files[file].path)).completes_well(catalog, run),
    ensures
        catalog_after(catalog, run) == catalog.without_file(file),
        catalog_after(catalog, run).works.contains(catalog.files[file].work),
        forall|kept: FileId|
            kept != file && catalog.has_file(kept) ==> catalog_after(catalog, run).has_file(kept)
                && catalog_after(catalog, run).files[kept] == catalog.files[kept],
        TaskView::removal(Some(catalog.files[file].path)).after(run) == TaskView::Finished(
            OutcomeView::FileRemoved { file },
        ),
{
    law_remove_tracked(catalog, file, run);
    assert(catalog.without_file(file).owns(catalog.files[file].work, other));
}

/// Removing the only file of a work deletes the file's record and the work,
/// and nothing else.
pub proof fn law_remove_purges_emptied_work(catalog: Catalog, file: FileId, run: Seq<Exchange>)
    requires
        catalog.well_formed(),
        catalog.has_file(file),
        forall|other: FileId| catalog.owns(catalog.files[file].work, other) ==> other == file,
        TaskView::removal(Some(catalog.files[file].path)).completes_well(catalog, run),
    ensures
        catalog_after(catalog, run) == catalog.without_file(file).without_work(
            catalog.files[file].work,
        ),
        !catalog_after(catalog, run).has_file(file),
        !catalog_after(catalog, run).works.contains(catalog.files[file].work),
        TaskView::removal(Some(catalog.files[file].path)).after(run) == TaskView::Finished(
            OutcomeView::WorkRemoved { file, work: catalog.files[file].work },
        ),
{
    law_remove_tracked(catalog, file, run);
    let work = catalog.files[file].work;
    assert forall|other: FileId| !catalog.without_file(file).owns(work, other) by {
        if catalog.without_file(file).owns(work, other) {
            assert(catalog.owns(work, other));
        }
    }
}

/// A catalog in which every work has a file is still one after a path was
/// removed, and the store's own invariants hold as before.
pub proof fn law_remove_leaves_no_ghost(catalog: Catalog, file: FileId, run: Seq<Exchange>)
    requires
        catalog.well_formed(),
        catalog.ghost_free(),
        catalog.has_file(file),
        TaskView::removal(Some(catalog.files[file].path)).completes_well(catalog, run),
    ensures
        catalog_after(catalog, run).well_formed(),
        catalog_after(catalog, run).ghost_free(),
        !catalog_after(catalog, run).tracks(catalog.files[file].path),
{
    law_remove_tracked(catalog, file, run);
    let after = catalog_after(catalog, run);
    let work = catalog.files[file].work;
    let left = catalog.without_file(file);
    assert forall|f: FileId, g: FileId|
        after.has_file(f) && after.has_file(g) && after.files[f].path
            == after.files[g].path implies f == g by {
        assert(catalog.has_file(f) && catalog.has_file(g));
    }
    assert forall|kept: FileId| after.has_file(kept) implies after.works.contains(
        after.files[kept].work,
    ) by {
        assert(catalog.has_file(kept));
        if left.is_ghost(work) {
            assert(!left.owns(work, kept));
        }
    }
    assert forall|other: WorkId| after.works.contains(other) implies !after.is_ghost(other) by {
        if other != work {
            assert(!catalog.is_ghost(other));
            let kept = choose|kept: FileId| catalog.owns(other, kept);
            assert(after.owns(other, kept));
        }
    }
    assert forall|other: FileId| !after.holds(other, catalog.files[file].path) by {
        if after.holds(other, catalog.files[file].path) {
            assert(catalog.has_file(other));
        }
    }
}

/// The same removal notified twice: the first deletes the record, the second
/// finds nothing, changes nothing and is no failure, however the store
/// answers it.
pub proof fn law_second_remove_is_noop(
    catalog: Catalog,
    file: FileId,
    first: Seq<Exchange>,
    second: Seq<Exchange>,
)
    requires
        catalog.well_formed(),
        catalog.has_file(file),
        TaskView::removal(Some(catalog.files[file].path)).completes_well(catalog, first),
        TaskView::removal(Some(catalog.files[file].path)).completes(
            catalog_after(catalog, first),
            second,
        ),
    ensures
        !catalog_after(catalog, first).has_file(file),
        catalog_after(catalog_after(catalog, first), second) == catalog_after(catalog, first),
        TaskView::removal(Some(catalog.files[file].path)).after(second) == TaskView::Finished(
            OutcomeView::Untracked,
        ),
        !OutcomeView::Untracked.is_failure(),
{
    law_remove_tracked(catalog, file, first);
    let between = catalog_after(catalog, first);
    let path = catalog.files[file].path;
    assert forall|other: FileId| !between.holds(other, path) by {
        if between.holds(other, path) {
            assert(catalog.has_file(other));
        }
    }
    law_remove_untracked_is_noop(between, Some(path), second);
}

/// Renaming a tracked path sets the stored path of its record to the new
/// path. The record keeps its work and everything else it holds, and no other
/// record and no work is touched.
pub proof fn law_rename_sets_path_only(
    catalog: Catalog,
    file: FileId,
    to: Seq<char>,
    run: Seq<Exchange>,
)
    requires
        catalog.well_formed(),
        catalog.has_file(file),
        TaskView::renaming(Some(catalog.files[file].path), Some(to)).completes_well(catalog, run),
    ensures
        catalog_after(catalog, run) == catalog.with_path(file, to),
        catalog_after(catalog, run).files[file] == (FileRow {
            path: to,
            work: catalog.files[file].work,
            rest: catalog.files[file].rest,
        }),
        catalog_after(catalog, run).works == catalog.works,
        forall|other: FileId|
            other != file ==> catalog_after(catalog, run).has_file(other) == catalog.has_file(
                other,
            ) && catalog_after(catalog, run).files[other] == catalog.files[other],
        TaskView::renaming(Some(catalog.files[file].path), Some(to)).after(run)
            == TaskView::Finished(OutcomeView::Renamed { file }),
{
    let task = TaskView::renaming(Some(catalog.files[file].path), Some(to));
    assert(catalog.holds(file, catalog.files[file].path));
    lemma_first_exchange_well(task, catalog, run);
    lemma_first_exchange_well(task.resume(run[0].reply), catalog, run.drop_first());
}

/// Renaming a tracked path to one that has no text form changes nothing and
/// is reported as a failure: the store is not asked to update the record.
pub proof fn law_rename_without_target_changes_nothing(
    catalog: Catalog,
    from: Seq<char>,
    run: Seq<Exchange>,
)
    requires
        catalog.tracks(from),
        TaskView::renaming(Some(from), None).completes_well(catalog, run),
    ensures
        catalog_after(catalog, run) == catalog,
        TaskView::renaming(Some(from), None).after(run) is Finished,
        TaskView::renaming(Some(from), None).after(run)->Finished_0 is TargetUnrepresentable,
        TaskView::renaming(Some(from), None).after(run)->Finished_0.is_failure(),
        TaskView::renaming(Some(from), None).requests(run) == seq![
            RequestView::FindFileByPath { path: from },
        ],
{
    reveal_with_fuel(TaskView::admits_well, 3);
    reveal_with_fuel(TaskView::after, 3);
    reveal_with_fuel(TaskView::requests, 3);
}

/// A created directory is never ingested as a file: it is scanned, then the
/// orphan pass runs, and nothing else is asked for.
pub proof fn law_created_directory_is_scanned(
    daemon: ScannerDaemon,
    path: Option<Seq<char>>,
    extension: Option<Seq<char>>,
    catalog: Catalog,
    run: Seq<Exchange>,
)
    requires
        daemon.task_for(NotificationView::Create(path), extension).completes(catalog, run),
        run[0].reply == ReplyView::Kind(PathKind::Directory),
    ensures
        daemon.task_for(NotificationView::Create(path), extension).requests(run) == seq![
            RequestView::Probe { created: path },
            RequestView::Scan { directory: path },
            RequestView::FixOrphans,
        ],
        daemon.task_for(NotificationView::Create(path), extension).after(run)
            == TaskView::Finished(OutcomeView::Reconciled),
{
    reveal_with_fuel(TaskView::admits, 5);
    reveal_with_fuel(TaskView::after, 5);
    reveal_with_fuel(TaskView::requests, 5);
}

/// A created file that is not ingested, its extension not being a supported
/// one, is neither ingested nor scanned, and the orphan pass runs all the
/// same. So it is with a created path that is neither file nor directory.
pub proof fn law_unsupported_file_only_fixes_orphans(
    daemon: ScannerDaemon,
    path: Option<Seq<char>>,
    extension: Option<Seq<char>>,
    catalog: Catalog,
    run: Seq<Exchange>,
)
    requires
        daemon.task_for(NotificationView::Create(path), extension).completes(catalog, run),
        run[0].reply == ReplyView::Kind(PathKind::Other) || (run[0].reply == ReplyView::Kind(
            PathKind::File,
        ) && !daemon.mounts(path, extension)),
    ensures
        daemon.task_for(NotificationView::Create(path), extension).requests(run) == seq![
            RequestView::Probe { created: path },
            RequestView::FixOrphans,
        ],
        daemon.task_for(NotificationView::Create(path), extension).after(run)
            == TaskView::Finished(OutcomeView::Reconciled),
{
    reveal_with_fuel(TaskView::admits, 4);
    reveal_with_fuel(TaskView::after, 4);
    reveal_with_fuel(TaskView::requests, 4);
}

/// A created file with a supported extension is ingested, once. Where that
/// works the orphan pass follows; where it fails the task ends there, with
/// the failure, and no orphan pass is run.
pub proof fn law_supported_file_is_mounted_once(
    daemon: ScannerDaemon,
    path: Option<Seq<char>>,
    extension: Option<Seq<char>>,
    catalog: Catalog,
    run: Seq<Exchange>,
)
    requires
        daemon.mounts(path, extension),
        daemon.task_for(NotificationView::Create(path), extension).completes(catalog, run),
        run[0].reply == ReplyView::Kind(PathKind::File),
    ensures
        run.len() >= 2,
        run[1].reply is Done || run[1].reply is Failed,
        run[1].reply is Done ==> {
            &&& daemon.task_for(NotificationView::Create(path), extension).requests(run) == seq![
                RequestView::Probe { created: path },
                RequestView::Mount { path: path->0 },
                RequestView::FixOrphans,
            ]
            &&& daemon.task_for(NotificationView::Create(path), extension).after(run)
                == TaskView::Finished(OutcomeView::Reconciled)
        },
        run[1].reply matches ReplyView::Failed(reason) ==> {
            &&& daemon.task_for(NotificationView::Create(path), extension).requests(run) == seq![
                RequestView::Probe { created: path },
                RequestView::Mount { path: path->0 },
            ]
            &&& daemon.task_for(NotificationView::Create(path), extension).after(run)
                == TaskView::Finished(OutcomeView::MountFailed { path: path->0, reason })
        },
{
    reveal_with_fuel(TaskView::admits, 5);
    reveal_with_fuel(TaskView::after, 5);
    reveal_with_fuel(TaskView::requests, 5);
}

/// A notification that is neither a creation, a removal nor a renaming asks
/// for nothing and changes nothing. One of no known kind is worth a debug
/// line, a failure of the watch an error, and the daemon goes on either way.
pub proof fn law_other_notifications_change_nothing(
    daemon: ScannerDaemon,
    notification: NotificationView,
    extension: Option<Seq<char>>,
    catalog: Catalog,
    run: Seq<Exchange>,
)
    requires
        notification is Other || notification is Error,
        daemon.task_for(notification, extension).admits(catalog, run),
    ensures
        run.len() == 0,
        catalog_after(catalog, run) == catalog,
        daemon.task_for(notification, extension).pending() is None,
        daemon.task_for(notification, extension) is Finished,
        notification is Other ==> daemon.task_for(notification, extension)
            == TaskView::Finished(OutcomeView::Ignored),
        notification matches NotificationView::Error(reason) ==> daemon.task_for(
            notification,
            extension,
        ) == TaskView::Finished(OutcomeView::WatchFailed { reason }),
{
}

/// Whatever the store answers, a task ends: it makes no more requests than
/// its rank says.
pub proof fn law_runs_are_bounded(task: TaskView, catalog: Catalog, run: Seq<Exchange>)
    requires
        task.admits(catalog, run),
    ensures
        run.len() <= task.rank(),
        run.len() == task.rank() ==> task.after(run) is Finished,
    decreases run.len(),
{
    if run.len() > 0 {
        law_runs_are_bounded(task.resume(run[0].reply), run[0].after, run.drop_first());
    }
}

} // verus!
