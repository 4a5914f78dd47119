//! What a task asks of its surroundings, and what it is told in return.

use vstd::prelude::*;
use crate::catalog::{FileId, WorkId};
use crate::event::PathKind;

verus! {

/// One piece of outside work that a task asks for.
#[derive(Clone, Debug, PartialEq, Eq)]
pub enum Request {
    /// Look at the path `created`: is it a file, a directory, or neither?
    Probe { created: Option<String> },
    /// Ingest the one file at `path`.
    Mount { path: String },
    /// Scan `directory` and everything below it.
    Scan { directory: Option<String> },
    /// Ingest whatever lies on disk without a record.
    FixOrphans,
    /// Find the file record whose stored path is exactly `path`.
    FindFileByPath { path: String },
    /// Find the work that owns `file`.
    FindWorkOfFile { file: FileId },
    /// Delete the record `file`.
    DeleteFile { file: FileId },
    /// List the file records that belong to `work`.
    ListFilesOfWork { work: WorkId },
    /// Delete the work `work`.
    DeleteWork { work: WorkId },
    /// Set the stored path of `file` to `path`, and nothing else.
    UpdateFilePath { file: FileId, path: String },
}

/// A request with its paths as sequences of characters.
pub enum RequestView {
    Probe { created: Option<Seq<char>> },
    Mount { path: Seq<char> },
    Scan { directory: Option<Seq<char>> },
    FixOrphans,
    FindFileByPath { path: Seq<char> },
    FindWorkOfFile { file: FileId },
    DeleteFile { file: FileId },
    ListFilesOfWork { work: WorkId },
    DeleteWork { work: WorkId },
    UpdateFilePath { file: FileId, path: Seq<char> },
}

impl View for Request {
    type V = RequestView;

    open spec fn view(&self) -> RequestView {
        match self {
            Request::Probe { created } => RequestView::Probe { created: created.deep_view() },
            Request::Mount { path } => RequestView::Mount { path: path@ },
            Request::Scan { directory } => RequestView::Scan {
                directory: directory.deep_view(),
            },
            Request::FixOrphans => RequestView::FixOrphans,
            Request::FindFileByPath { path } => RequestView::FindFileByPath { path: path@ },
            Request::FindWorkOfFile { file } => RequestView::FindWorkOfFile { file: *file },
            Request::DeleteFile { file } => RequestView::DeleteFile { file: *file },
            Request::ListFilesOfWork { work } => RequestView::ListFilesOfWork { work: *work },
            Request::DeleteWork { work } => RequestView::DeleteWork { work: *work },
            Request::UpdateFilePath { file, path } => RequestView::UpdateFilePath {
                file: *file,
                path: path@,
            },
        }
    }
}

impl RequestView {
    /// The request changes the catalog's records when it succeeds.
    pub open spec fn is_mutation(self) -> bool {
        self is DeleteFile || self is DeleteWork || self is UpdateFilePath
    }

    /// The request goes to an ingestor.
    pub open spec fn is_ingestion(self) -> bool {
        self is Mount || self is Scan || self is FixOrphans
    }

    /// `reply` is of the kind that answers this request.
    pub open spec fn answered_by(self, reply: ReplyView) -> bool {
        match self {
            RequestView::Probe { .. } => reply is Kind,
            RequestView::FindFileByPath { .. } => reply is File,
            RequestView::FindWorkOfFile { .. } => reply is Work,
            RequestView::ListFilesOfWork { .. } => reply is Files,
            _ => reply is Done || reply is Failed,
        }
    }
}

/// What came of a request.
#[derive(Clone, Debug, PartialEq, Eq)]
pub enum Reply {
    /// To `Probe`: what the path is.
    Kind(PathKind),
    /// The work was done.
    Done,
    /// The work failed, and why.
    Failed(String),
    /// To `FindFileByPath`: the record, or `None` where none was found, for
    /// whatever reason.
    File(Option<FileId>),
    /// To `FindWorkOfFile`: the owner, or `None` where none was found, for
    /// whatever reason.
    Work(Option<WorkId>),
    /// To `ListFilesOfWork`: the records, or `None` where the listing failed.
    Files(Option<Vec<FileId>>),
}

/// A reply with its text and its list as sequences.
pub enum ReplyView {
    Kind(PathKind),
    Done,
    Failed(Seq<char>),
    File(Option<FileId>),
    Work(Option<WorkId>),
    Files(Option<Seq<FileId>>),
}

impl View for Reply {
    type V = ReplyView;

    open spec fn view(&self) -> ReplyView {
        match self {
            Reply::Kind(kind) => ReplyView::Kind(*kind),
            Reply::Done => ReplyView::Done,
            Reply::Failed(reason) => ReplyView::Failed(reason@),
            Reply::File(found) => ReplyView::File(*found),
            Reply::Work(found) => ReplyView::Work(*found),
            Reply::Files(found) => ReplyView::Files(
                match found {
                    Some(files) => Some(files@),
                    None => None,
                },
            ),
        }
    }
}

/// The view of a request that may not be there.
pub open spec fn request_view(request: Option<Request>) -> Option<RequestView> {
    match request {
        Some(r) => Some(r@),
        None => None,
    }
}

} // verus!
