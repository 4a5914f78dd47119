//! The daemon: which watch it opens with, and which task each notification
//! starts.

use vstd::prelude::*;
use crate::event::{Notification, NotificationView};
use crate::extension::{extension_of, follows_dot, path_extension};
use crate::outcome::{Outcome, OutcomeView};
use crate::task::{Task, TaskView};

verus! {

/// The quiet time, in seconds, after which the watch reports a change. Changes
/// to one path that follow each other faster than this arrive as one.
pub const DEBOUNCE_SECS: u64 = 1;

/// The watch that the daemon asks for when it starts.
#[derive(Clone, Debug, PartialEq, Eq)]
pub struct Watch {
    /// The directory to watch.
    pub root: String,
    /// Whether everything below `root` is watched too.
    pub recursive: bool,
    /// The quiet time in seconds after which a change is reported.
    pub debounce_secs: u64,
}

/// The daemon of one library: the directory it watches and the extensions of
/// the files that its kind of media is stored in.
#[derive(Clone, Debug, PartialEq, Eq)]
pub struct ScannerDaemon {
    /// The library's root directory.
    pub location: String,
    /// The extensions, without the dot, of the files that are ingested.
    pub supported_exts: Vec<String>,
}

impl ScannerDaemon {
    /// The supported extensions as sequences of characters.
    pub open spec fn extensions(&self) -> Seq<Seq<char>> {
        self.supported_exts.deep_view()
    }

    /// Whether a created path with this extension is ingested if it turns out
    /// to be a file: it is where the path has a text form and the extension is
    /// a supported one, letter for letter.
    pub open spec fn mounts(&self, path: Option<Seq<char>>, extension: Option<Seq<char>>) -> bool {
        path is Some && extension is Some && self.extensions().contains(extension->0)
    }

    /// The task that a notification starts.
    ///
    /// `extension` is the extension of the created path, which matters for no
    /// other notification.
    pub open spec fn task_for(
        &self,
        notification: NotificationView,
        extension: Option<Seq<char>>,
    ) -> TaskView {
        match notification {
            NotificationView::Create(path) => TaskView::creation(
                path,
                self.mounts(path, extension),
            ),
            NotificationView::Remove(path) => TaskView::removal(path),
            NotificationView::Rename(from, to) => TaskView::renaming(from, to),
            NotificationView::Other => TaskView::Finished(OutcomeView::Ignored),
            NotificationView::Error(reason) => TaskView::Finished(
                OutcomeView::WatchFailed { reason },
            ),
        }
    }

    /// Some supported extension stands in `path` right behind a dot.
    pub open spec fn names_supported(&self, path: Seq<char>) -> bool {
        exists|i: int|
            0 <= i < self.extensions().len() && follows_dot(path, #[trigger] self.extensions()[i])
    }

    /// The extension that the standard library finds in a path that may have
    /// no text form.
    pub open spec fn extension_in(path: Option<Seq<char>>) -> Option<Seq<char>> {
        match path {
            Some(text) => extension_of(text),
            None => None,
        }
    }

    /// A daemon for the library at `location`, which ingests the files with
    /// one of `supported_exts`.
    pub fn new(location: String, supported_exts: Vec<String>) -> (daemon: ScannerDaemon)
        ensures
            daemon.location == location,
            daemon.supported_exts == supported_exts,
    {
        ScannerDaemon { location, supported_exts }
    }

    /// The watch to open before the first notification is taken: on the
    /// library's root, with everything below it, and with the fixed quiet
    /// time.
    pub fn start_daemon(&self) -> (watch: Watch)
        ensures
            watch.root@ == self.location@,
            watch.recursive,
            watch.debounce_secs == DEBOUNCE_SECS,
    {
        Watch { root: self.location.clone(), recursive: true, debounce_secs: DEBOUNCE_SECS }
    }

    /// Whether `extension` is one of the supported extensions.
    pub fn supports(&self, extension: &str) -> (supported: bool)
        ensures
            supported == self.extensions().contains(extension@),
    {
        let wanted: String = extension.to_owned();
        let mut i: usize = 0;
        while i < self.supported_exts.len()
            invariant
                i <= self.supported_exts.len(),
                wanted@ == extension@,
                forall|j: int| 0 <= j < i ==> self.extensions()[j] != extension@,
            decreases self.supported_exts.len() - i,
        {
            if self.supported_exts[i] == wanted {
                assert(self.extensions()[i as int] == extension@);
                return true;
            }
            i += 1;
        }
        false
    }

    /// The task that the creation of `path` starts, given the path's
    /// extension.
    pub fn create_task(&self, path: Option<String>, extension: Option<String>) -> (task: Task)
        ensures
            task@ == TaskView::creation(
                path.deep_view(),
                self.mounts(path.deep_view(), extension.deep_view()),
            ),
    {
        let mountable: bool = match (&path, &extension) {
            (Some(_), Some(e)) => self.supports(e.as_str()),
            _ => false,
        };
        Task::Probing { created: path, mountable }
    }

    /// The task that the creation of `path` starts.
    ///
    /// The path is first looked at. A file with a supported extension is
    /// ingested, a directory is scanned, and the orphan pass follows unless
    /// the ingestion failed.
    pub fn handle_create(&self, path: Option<String>) -> (task: Task)
        ensures
            task@ == TaskView::creation(
                path.deep_view(),
                self.mounts(path.deep_view(), Self::extension_in(path.deep_view())),
            ),
            self.mounts(path.deep_view(), Self::extension_in(path.deep_view()))
                ==> self.names_supported(path.deep_view()->0),
    {
        let extension: Option<String> = match &path {
            Some(text) => path_extension(text.as_str()),
            None => None,
        };
        proof {
            if self.mounts(path.deep_view(), extension.deep_view()) {
                let found = extension.deep_view()->0;
                let i = choose|i: int|
                    0 <= i < self.extensions().len() && self.extensions()[i] == found;
                assert(follows_dot(path.deep_view()->0, self.extensions()[i]));
            }
        }
        self.create_task(path, extension)
    }

    /// The task that the removal of `path` starts.
    ///
    /// The record stored under the path is deleted, and its work with it
    /// where that leaves the work without files. A path without a text form
    /// has no record: nothing is asked of the store.
    pub fn handle_remove(&self, path: Option<String>) -> (task: Task)
        ensures
            task@ == TaskView::removal(path.deep_view()),
    {
        match path {
            Some(path) => Task::Locating { path },
            None => Task::Finished(Outcome::Untracked),
        }
    }

    /// The task that the renaming of `from` to `to` starts.
    ///
    /// The record stored under `from` has its path set to `to`. A path `from`
    /// without a text form has no record: nothing is asked of the store.
    pub fn handle_rename(&self, from: Option<String>, to: Option<String>) -> (task: Task)
        ensures
            task@ == TaskView::renaming(from.deep_view(), to.deep_view()),
    {
        match from {
            Some(from) => Task::Resolving { from, to },
            None => Task::Finished(Outcome::Untracked),
        }
    }

    /// The task that `notification` starts: a creation, a removal and a
    /// renaming go to their handlers, anything else is done with at once.
    pub fn dispatch(&self, notification: Notification) -> (task: Task)
        ensures
            task@ == self.task_for(
                notification@,
                match notification@ {
                    NotificationView::Create(path) => Self::extension_in(path),
                    _ => None,
                },
            ),
            notification@ matches NotificationView::Create(path) ==> (self.mounts(
                path,
                Self::extension_in(path),
            ) ==> self.names_supported(path->0)),
    {
        match notification {
            Notification::Create(path) => self.handle_create(path),
            Notification::Rename(from, to) => self.handle_rename(from, to),
            Notification::Remove(path) => self.handle_remove(path),
            Notification::Other => Task::Finished(Outcome::Ignored),
            Notification::Error(reason) => Task::Finished(Outcome::WatchFailed { reason }),
        }
    }
}

} // verus!
