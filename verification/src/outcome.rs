//! How the handling of one notification ended, and how loudly to say so.

use vstd::prelude::*;
use crate::catalog::{FileId, WorkId};

verus! {

/// How loud a report is.
#[derive(Clone, Copy, Debug, PartialEq, Eq, Structural)]
pub enum Severity {
    Debug,
    Warning,
    Error,
}

/// How the handling of one notification ended.
#[derive(Clone, Debug, PartialEq, Eq)]
pub enum Outcome {
    /// The notification was of a kind that changes nothing.
    Ignored,
    /// The watch reported a failure; the daemon goes on listening.
    WatchFailed { reason: String },
    /// The created path was taken in and the orphan pass has run.
    Reconciled,
    /// The created file could not be ingested; no orphan pass was run.
    MountFailed { path: String, reason: String },
    /// No record is stored under the path: nothing was changed.
    Untracked,
    /// The record was deleted and its work was left in place.
    FileRemoved { file: FileId },
    /// The record was deleted, and its work with it, having no file left.
    WorkRemoved { file: FileId, work: WorkId },
    /// The record could not be deleted; its work was not looked at.
    FileNotRemoved { file: FileId, reason: String },
    /// The record was deleted, but its work, now without files, could not be.
    WorkNotRemoved { file: FileId, work: WorkId, reason: String },
    /// The record's stored path was set to the new path.
    Renamed { file: FileId },
    /// The store refused the new path.
    NotRenamed { file: FileId, reason: String },
    /// The new path has no text form, so the store was not asked.
    TargetUnrepresentable { file: FileId },
}

/// An outcome with its text as sequences of characters.
pub enum OutcomeView {
    Ignored,
    WatchFailed { reason: Seq<char> },
    Reconciled,
    MountFailed { path: Seq<char>, reason: Seq<char> },
    Untracked,
    FileRemoved { file: FileId },
    WorkRemoved { file: FileId, work: WorkId },
    FileNotRemoved { file: FileId, reason: Seq<char> },
    WorkNotRemoved { file: FileId, work: WorkId, reason: Seq<char> },
    Renamed { file: FileId },
    NotRenamed { file: FileId, reason: Seq<char> },
    TargetUnrepresentable { file: FileId },
}

impl View for Outcome {
    type V = OutcomeView;

    open spec fn view(&self) -> OutcomeView {
        match self {
            Outcome::Ignored => OutcomeView::Ignored,
            Outcome::WatchFailed { reason } => OutcomeView::WatchFailed { reason: reason@ },
            Outcome::Reconciled => OutcomeView::Reconciled,
            Outcome::MountFailed { path, reason } => OutcomeView::MountFailed {
                path: path@,
                reason: reason@,
            },
            Outcome::Untracked => OutcomeView::Untracked,
            Outcome::FileRemoved { file } => OutcomeView::FileRemoved { file: *file },
            Outcome::WorkRemoved { file, work } => OutcomeView::WorkRemoved {
                file: *file,
                work: *work,
            },
            Outcome::FileNotRemoved { file, reason } => OutcomeView::FileNotRemoved {
                file: *file,
                reason: reason@,
            },
            Outcome::WorkNotRemoved { file, work, reason } => OutcomeView::WorkNotRemoved {
                file: *file,
                work: *work,
                reason: reason@,
            },
            Outcome::Renamed { file } => OutcomeView::Renamed { file: *file },
            Outcome::NotRenamed { file, reason } => OutcomeView::NotRenamed {
                file: *file,
                reason: reason@,
            },
            Outcome::TargetUnrepresentable { file } => OutcomeView::TargetUnrepresentable {
                file: *file,
            },
        }
    }
}

impl OutcomeView {
    /// The level at which the outcome is reported, `None` where there is
    /// nothing to report.
    ///
    /// A notification that is passed over is worth a debug line, a failed
    /// ingestion a warning, and a failure of the watch or of a change to the
    /// catalog an error. A path without a record is the ordinary case, not a
    /// failure.
    pub open spec fn severity(self) -> Option<Severity> {
        match self {
            OutcomeView::Ignored => Some(Severity::Debug),
            OutcomeView::MountFailed { .. } => Some(Severity::Warning),
            OutcomeView::WatchFailed { .. }
            | OutcomeView::FileNotRemoved { .. }
            | OutcomeView::WorkNotRemoved { .. }
            | OutcomeView::NotRenamed { .. }
            | OutcomeView::TargetUnrepresentable { .. } => Some(Severity::Error),
            OutcomeView::Reconciled
            | OutcomeView::Untracked
            | OutcomeView::FileRemoved { .. }
            | OutcomeView::WorkRemoved { .. }
            | OutcomeView::Renamed { .. } => None,
        }
    }

    /// The outcome reports that something went wrong.
    pub open spec fn is_failure(self) -> bool {
        self.severity() == Some(Severity::Warning) || self.severity() == Some(Severity::Error)
    }
}

impl Outcome {
    /// The level at which to report the outcome, `None` where there is
    /// nothing to report.
    pub fn severity(&self) -> (level: Option<Severity>)
        ensures
            level == self@.severity(),
    {
        match self {
            Outcome::Ignored => Some(Severity::Debug),
            Outcome::MountFailed { .. } => Some(Severity::Warning),
            Outcome::WatchFailed { .. } => Some(Severity::Error),
            Outcome::FileNotRemoved { .. } => Some(Severity::Error),
            Outcome::WorkNotRemoved { .. } => Some(Severity::Error),
            Outcome::NotRenamed { .. } => Some(Severity::Error),
            Outcome::TargetUnrepresentable { .. } => Some(Severity::Error),
            Outcome::Reconciled => None,
            Outcome::Untracked => None,
            Outcome::FileRemoved { .. } => None,
            Outcome::WorkRemoved { .. } => None,
            Outcome::Renamed { .. } => None,
        }
    }
}

} // verus!
