//! The handling of one notification, as a sequence of requests.
//!
//! A task is a value. It names the request it waits for, and given the reply
//! it becomes the task that follows. It never does the work itself, so it can
//! be stated exactly what it asks for, in which order, and when it stops.

use vstd::prelude::*;
use crate::catalog::{FileId, WorkId};
use crate::event::PathKind;
use crate::exchange::{request_view, Reply, ReplyView, Request, RequestView};
use crate::outcome::{Outcome, OutcomeView};

verus! {

/// Where the handling of one notification stands.
#[derive(Clone, Debug, PartialEq, Eq)]
pub enum Task {
    /// A path was created; what it is has yet to be seen. `mountable` says
    /// whether the path would be ingested if it is a file.
    Probing { created: Option<String>, mountable: bool },
    /// The created file is being ingested.
    Mounting { path: String },
    /// The created directory is being scanned.
    Scanning { directory: Option<String> },
    /// The orphan pass that ends the handling of a creation is running.
    FixingOrphans,
    /// A path was removed; its record is being looked up.
    Locating { path: String },
    /// The removed path's record is `file`; its work is being looked up.
    Owning { file: FileId },
    /// The record is being deleted. `owner` is its work, where one was found.
    DeletingFile { file: FileId, owner: Option<WorkId> },
    /// The record is gone; the files left to its work are being listed.
    Listing { file: FileId, work: WorkId },
    /// The work has no file left and is being deleted.
    DeletingWork { file: FileId, work: WorkId },
    /// A path was renamed; the record under its old path is being looked up.
    Resolving { from: String, to: Option<String> },
    /// The record's stored path is being set to the new path.
    Updating { file: FileId, path: String },
    /// Nothing is left to do.
    Finished(Outcome),
}

/// A task with its text as sequences of characters.
pub enum TaskView {
    Probing { created: Option<Seq<char>>, mountable: bool },
    Mounting { path: Seq<char> },
    Scanning { directory: Option<Seq<char>> },
    FixingOrphans,
    Locating { path: Seq<char> },
    Owning { file: FileId },
    DeletingFile { file: FileId, owner: Option<WorkId> },
    Listing { file: FileId, work: WorkId },
    DeletingWork { file: FileId, work: WorkId },
    Resolving { from: Seq<char>, to: Option<Seq<char>> },
    Updating { file: FileId, path: Seq<char> },
    Finished(OutcomeView),
}

impl View for Task {
    type V = TaskView;

    open spec fn view(&self) -> TaskView {
        match self {
            Task::Probing { created, mountable } => TaskView::Probing {
                created: created.deep_view(),
                mountable: *mountable,
            },
            Task::Mounting { path } => TaskView::Mounting { path: path@ },
            Task::Scanning { directory } => TaskView::Scanning {
                directory: directory.deep_view(),
            },
            Task::FixingOrphans => TaskView::FixingOrphans,
            Task::Locating { path } => TaskView::Locating { path: path@ },
            Task::Owning { file } => TaskView::Owning { file: *file },
            Task::DeletingFile { file, owner } => TaskView::DeletingFile {
                file: *file,
                owner: *owner,
            },
            Task::Listing { file, work } => TaskView::Listing { file: *file, work: *work },
            Task::DeletingWork { file, work } => TaskView::DeletingWork {
                file: *file,
                work: *work,
            },
            Task::Resolving { from, to } => TaskView::Resolving {
                from: from@,
                to: to.deep_view(),
            },
            Task::Updating { file, path } => TaskView::Updating { file: *file, path: path@ },
            Task::Finished(outcome) => TaskView::Finished(outcome@),
        }
    }
}

impl TaskView {
    /// The task that the creation of `path` starts. `mountable` says whether
    /// the path is ingested if it turns out to be a file.
    pub open spec fn creation(path: Option<Seq<char>>, mountable: bool) -> TaskView {
        TaskView::Probing { created: path, mountable }
    }

    /// The task that the removal of `path` starts. A path without a text form
    /// has no record, so there is nothing to do.
    pub open spec fn removal(path: Option<Seq<char>>) -> TaskView {
        match path {
            Some(path) => TaskView::Locating { path },
            None => TaskView::Finished(OutcomeView::Untracked),
        }
    }

    /// The task that the renaming of `from` to `to` starts. A path `from`
    /// without a text form has no record, so there is nothing to do.
    pub open spec fn renaming(from: Option<Seq<char>>, to: Option<Seq<char>>) -> TaskView {
        match from {
            Some(from) => TaskView::Resolving { from, to },
            None => TaskView::Finished(OutcomeView::Untracked),
        }
    }

    /// The request that the task waits for, `None` once it has finished.
    pub open spec fn pending(self) -> Option<RequestView> {
        match self {
            TaskView::Probing { created, .. } => Some(RequestView::Probe { created }),
            TaskView::Mounting { path } => Some(RequestView::Mount { path }),
            TaskView::Scanning { directory } => Some(RequestView::Scan { directory }),
            TaskView::FixingOrphans => Some(RequestView::FixOrphans),
            TaskView::Locating { path } => Some(RequestView::FindFileByPath { path }),
            TaskView::Owning { file } => Some(RequestView::FindWorkOfFile { file }),
            TaskView::DeletingFile { file, .. } => Some(RequestView::DeleteFile { file }),
            TaskView::Listing { work, .. } => Some(RequestView::ListFilesOfWork { work }),
            TaskView::DeletingWork { work, .. } => Some(RequestView::DeleteWork { work }),
            TaskView::Resolving { from, .. } => Some(RequestView::FindFileByPath { path: from }),
            TaskView::Updating { file, path } => Some(RequestView::UpdateFilePath { file, path }),
            TaskView::Finished(_) => None,
        }
    }

    /// The task that follows once `reply` has come in.
    ///
    /// A created path is ingested where it is a file worth ingesting, scanned
    /// where it is a directory, and in both cases, as in every other, followed
    /// by the orphan pass; only a failed ingestion ends the task before that
    /// pass. What the scan and the orphan pass report is not looked at.
    ///
    /// A removed path whose record is found has the owner of that record
    /// looked up, then the record deleted. If that worked and the owner is
    /// known, the owner's remaining files are listed, and the owner is
    /// deleted where the list is empty. A listing that fails leaves the owner
    /// alone.
    ///
    /// A renamed path whose record is found has the record's stored path set
    /// to the new path, unless the new path has no text form.
    ///
    /// A reply of a kind that does not answer the pending request changes
    /// nothing, and neither does any reply to a finished task.
    pub open spec fn resume(self, reply: ReplyView) -> TaskView {
        match (self, reply) {
            (TaskView::Probing { created, mountable }, ReplyView::Kind(kind)) => match kind {
                PathKind::File => if mountable && created is Some {
                    TaskView::Mounting { path: created->0 }
                } else {
                    TaskView::FixingOrphans
                },
                PathKind::Directory => TaskView::Scanning { directory: created },
                PathKind::Other => TaskView::FixingOrphans,
            },
            (TaskView::Mounting { .. }, ReplyView::Done) => TaskView::FixingOrphans,
            (TaskView::Mounting { path }, ReplyView::Failed(reason)) => TaskView::Finished(
                OutcomeView::MountFailed { path, reason },
            ),
            (TaskView::Scanning { .. }, ReplyView::Done) => TaskView::FixingOrphans,
            (TaskView::Scanning { .. }, ReplyView::Failed(_)) => TaskView::FixingOrphans,
            (TaskView::FixingOrphans, ReplyView::Done) => TaskView::Finished(
                OutcomeView::Reconciled,
            ),
            (TaskView::FixingOrphans, ReplyView::Failed(_)) => TaskView::Finished(
                OutcomeView::Reconciled,
            ),
            (TaskView::Locating { .. }, ReplyView::File(Some(file))) => TaskView::Owning { file },
            (TaskView::Locating { .. }, ReplyView::File(None)) => TaskView::Finished(
                OutcomeView::Untracked,
            ),
            (TaskView::Owning { file }, ReplyView::Work(owner)) => TaskView::DeletingFile {
                file,
                owner,
            },
            (TaskView::DeletingFile { file, owner }, ReplyView::Done) => match owner {
                Some(work) => TaskView::Listing { file, work },
                None => TaskView::Finished(OutcomeView::FileRemoved { file }),
            },
            (TaskView::DeletingFile { file, .. }, ReplyView::Failed(reason)) => TaskView::Finished(
                OutcomeView::FileNotRemoved { file, reason },
            ),
            (TaskView::Listing { file, work }, ReplyView::Files(Some(left))) => if left.len()
                == 0 {
                TaskView::DeletingWork { file, work }
            } else {
                TaskView::Finished(OutcomeView::FileRemoved { file })
            },
            (TaskView::Listing { file, .. }, ReplyView::Files(None)) => TaskView::Finished(
                OutcomeView::FileRemoved { file },
            ),
            (TaskView::DeletingWork { file, work }, ReplyView::Done) => TaskView::Finished(
                OutcomeView::WorkRemoved { file, work },
            ),
            (TaskView::DeletingWork { file, work }, ReplyView::Failed(reason)) => {
                TaskView::Finished(OutcomeView::WorkNotRemoved { file, work, reason })
            },
            (TaskView::Resolving { to, .. }, ReplyView::File(Some(file))) => match to {
                Some(path) => TaskView::Updating { file, path },
                None => TaskView::Finished(OutcomeView::TargetUnrepresentable { file }),
            },
            (TaskView::Resolving { .. }, ReplyView::File(None)) => TaskView::Finished(
                OutcomeView::Untracked,
            ),
            (TaskView::Updating { file, .. }, ReplyView::Done) => TaskView::Finished(
                OutcomeView::Renamed { file },
            ),
            (TaskView::Updating { file, .. }, ReplyView::Failed(reason)) => TaskView::Finished(
                OutcomeView::NotRenamed { file, reason },
            ),
            _ => self,
        }
    }

    /// An upper bound on the number of requests that the task has yet to make.
    pub open spec fn rank(self) -> nat {
        match self {
            TaskView::Probing { .. } => 3,
            TaskView::Mounting { .. } => 2,
            TaskView::Scanning { .. } => 2,
            TaskView::FixingOrphans => 1,
            TaskView::Locating { .. } => 5,
            TaskView::Owning { .. } => 4,
            TaskView::DeletingFile { .. } => 3,
            TaskView::Listing { .. } => 2,
            TaskView::DeletingWork { .. } => 1,
            TaskView::Resolving { .. } => 2,
            TaskView::Updating { .. } => 1,
            TaskView::Finished(_) => 0,
        }
    }
}

/// A copy of a path that may not be there.
fn copy_of(path: &Option<String>) -> (copy: Option<String>)
    ensures
        copy.deep_view() == path.deep_view(),
{
    match path {
        Some(text) => Some(text.clone()),
        None => None,
    }
}

impl Task {
    /// The request that the task waits for, `None` once it has finished.
    pub fn pending(&self) -> (request: Option<Request>)
        ensures
            request_view(request) == self@.pending(),
    {
        match self {
            Task::Probing { created, .. } => Some(Request::Probe { created: copy_of(created) }),
            Task::Mounting { path } => Some(Request::Mount { path: path.clone() }),
            Task::Scanning { directory } => Some(Request::Scan { directory: copy_of(directory) }),
            Task::FixingOrphans => Some(Request::FixOrphans),
            Task::Locating { path } => Some(Request::FindFileByPath { path: path.clone() }),
            Task::Owning { file } => Some(Request::FindWorkOfFile { file: *file }),
            Task::DeletingFile { file, .. } => Some(Request::DeleteFile { file: *file }),
            Task::Listing { work, .. } => Some(Request::ListFilesOfWork { work: *work }),
            Task::DeletingWork { work, .. } => Some(Request::DeleteWork { work: *work }),
            Task::Resolving { from, .. } => Some(Request::FindFileByPath { path: from.clone() }),
            Task::Updating { file, path } => Some(
                Request::UpdateFilePath { file: *file, path: path.clone() },
            ),
            Task::Finished(_) => None,
        }
    }

    /// Whether nothing is left to do.
    pub fn is_finished(&self) -> (done: bool)
        ensures
            done == (self@ is Finished),
            done == (self@.pending() is None),
    {
        match self {
            Task::Finished(_) => true,
            _ => false,
        }
    }

    /// How the handling ended, `None` while it is still under way.
    pub fn outcome(&self) -> (outcome: Option<&Outcome>)
        ensures
            match outcome {
                Some(o) => self@ == TaskView::Finished(o@),
                None => !(self@ is Finished),
            },
    {
        match self {
            Task::Finished(outcome) => Some(outcome),
            _ => None,
        }
    }

    /// The task that follows once `reply` has come in.
    pub fn resume(self, reply: Reply) -> (next: Task)
        ensures
            next@ == self@.resume(reply@),
    {
        match self {
            Task::Probing { created, mountable } => match reply {
                Reply::Kind(PathKind::File) => match created {
                    Some(path) => if mountable {
                        Task::Mounting { path }
                    } else {
                        Task::FixingOrphans
                    },
                    None => Task::FixingOrphans,
                },
                Reply::Kind(PathKind::Directory) => Task::Scanning { directory: created },
                Reply::Kind(PathKind::Other) => Task::FixingOrphans,
                _ => Task::Probing { created, mountable },
            },
            Task::Mounting { path } => match reply {
                Reply::Done => Task::FixingOrphans,
                Reply::Failed(reason) => Task::Finished(Outcome::MountFailed { path, reason }),
                _ => Task::Mounting { path },
            },
            Task::Scanning { directory } => match reply {
                Reply::Done => Task::FixingOrphans,
                Reply::Failed(_) => Task::FixingOrphans,
                _ => Task::Scanning { directory },
            },
            Task::FixingOrphans => match reply {
                Reply::Done => Task::Finished(Outcome::Reconciled),
                Reply::Failed(_) => Task::Finished(Outcome::Reconciled),
                _ => Task::FixingOrphans,
            },
            Task::Locating { path } => match reply {
                Reply::File(Some(file)) => Task::Owning { file },
                Reply::File(None) => Task::Finished(Outcome::Untracked),
                _ => Task::Locating { path },
            },
            Task::Owning { file } => match reply {
                Reply::Work(owner) => Task::DeletingFile { file, owner },
                _ => Task::Owning { file },
            },
            Task::DeletingFile { file, owner } => match reply {
                Reply::Done => match owner {
                    Some(work) => Task::Listing { file, work },
                    None => Task::Finished(Outcome::FileRemoved { file }),
                },
                Reply::Failed(reason) => Task::Finished(Outcome::FileNotRemoved { file, reason }),
                _ => Task::DeletingFile { file, owner },
            },
            Task::Listing { file, work } => match reply {
                Reply::Files(Some(left)) => if left.len() == 0 {
                    Task::DeletingWork { file, work }
                } else {
                    Task::Finished(Outcome::FileRemoved { file })
                },
                Reply::Files(None) => Task::Finished(Outcome::FileRemoved { file }),
                _ => Task::Listing { file, work },
            },
            Task::DeletingWork { file, work } => match reply {
                Reply::Done => Task::Finished(Outcome::WorkRemoved { file, work }),
                Reply::Failed(reason) => Task::Finished(
                    Outcome::WorkNotRemoved { file, work, reason },
                ),
                _ => Task::DeletingWork { file, work },
            },
            Task::Resolving { from, to } => match reply {
                Reply::File(Some(file)) => match to {
                    Some(path) => Task::Updating { file, path },
                    None => Task::Finished(Outcome::TargetUnrepresentable { file }),
                },
                Reply::File(None) => Task::Finished(Outcome::Untracked),
                _ => Task::Resolving { from, to },
            },
            Task::Updating { file, path } => match reply {
                Reply::Done => Task::Finished(Outcome::Renamed { file }),
                Reply::Failed(reason) => Task::Finished(Outcome::NotRenamed { file, reason }),
                _ => Task::Updating { file, path },
            },
            Task::Finished(outcome) => Task::Finished(outcome),
        }
    }
}

/// A reply that answers the pending request takes the task one step nearer
/// to its end, and any other reply leaves it as it is. A task has rank 0
/// exactly when it has finished.
pub proof fn law_reply_makes_progress(task: TaskView, reply: ReplyView)
    ensures
        match task.pending() {
            Some(request) => if request.answered_by(reply) {
                task.resume(reply).rank() < task.rank()
            } else {
                task.resume(reply) == task
            },
            None => task.resume(reply) == task,
        },
        task.rank() == 0 <==> task is Finished,
        task.pending() is None <==> task is Finished,
{
}

} // verus!
