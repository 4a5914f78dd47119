//! Whole notifications, run against a small catalog and ingestors that record
//! what they were asked.

use scanner_daemon::{
    FileId, Notification, Outcome, PathKind, Reply, Request, ScannerDaemon, Severity, WorkId,
};

#[derive(Clone, Debug, PartialEq)]
struct Row {
    id: i64,
    path: String,
    work: i64,
    raw_name: String,
}

#[derive(Debug, Default)]
struct Library {
    files: Vec<Row>,
    works: Vec<i64>,
    directories: Vec<String>,
    on_disk: Vec<String>,
    refuse_mount: bool,
    asked: Vec<Request>,
}

impl Library {
    fn with_file(mut self, id: i64, path: &str, work: i64) -> Library {
        self.files.push(Row {
            id,
            path: path.to_string(),
            work,
            raw_name: format!("raw-{}", id),
        });
        if !self.works.contains(&work) {
            self.works.push(work);
        }
        self
    }

    fn file(&self, id: i64) -> Option<&Row> {
        self.files.iter().find(|row| row.id == id)
    }

    fn files_of(&self, work: i64) -> Vec<i64> {
        self.files.iter().filter(|row| row.work == work).map(|row| row.id).collect()
    }

    fn count(&self, wanted: fn(&Request) -> bool) -> usize {
        self.asked.iter().filter(|request| wanted(request)).count()
    }

    fn perform(&mut self, request: &Request) -> Reply {
        self.asked.push(request.clone());
        match request {
            Request::Probe { created } => match created {
                Some(path) if self.directories.contains(path) => Reply::Kind(PathKind::Directory),
                Some(path) if self.on_disk.contains(path) => Reply::Kind(PathKind::File),
                _ => Reply::Kind(PathKind::Other),
            },
            Request::Mount { .. } => {
                if self.refuse_mount {
                    Reply::Failed("probe failed".to_string())
                } else {
                    Reply::Done
                }
            }
            Request::Scan { .. } => Reply::Done,
            Request::FixOrphans => Reply::Done,
            Request::FindFileByPath { path } => {
                Reply::File(self.files.iter().find(|row| &row.path == path).map(|row| FileId(row.id)))
            }
            Request::FindWorkOfFile { file } => Reply::Work(
                self.file(file.0).filter(|row| self.works.contains(&row.work)).map(|row| WorkId(row.work)),
            ),
            Request::DeleteFile { file } => {
                if self.file(file.0).is_some() {
                    self.files.retain(|row| row.id != file.0);
                    Reply::Done
                } else {
                    Reply::Failed("no such file".to_string())
                }
            }
            Request::ListFilesOfWork { work } => {
                Reply::Files(Some(self.files_of(work.0).into_iter().map(FileId).collect()))
            }
            Request::DeleteWork { work } => {
                if self.works.contains(&work.0) {
                    self.works.retain(|id| *id != work.0);
                    Reply::Done
                } else {
                    Reply::Failed("no such work".to_string())
                }
            }
            Request::UpdateFilePath { file, path } => {
                match self.files.iter_mut().find(|row| row.id == file.0) {
                    Some(row) => {
                        row.path = path.clone();
                        Reply::Done
                    }
                    None => Reply::Failed("no such file".to_string()),
                }
            }
        }
    }
}

fn movies() -> ScannerDaemon {
    ScannerDaemon::new(
        "/lib/movies".to_string(),
        vec!["mkv".to_string(), "mp4".to_string(), "avi".to_string()],
    )
}

fn handle(daemon: &ScannerDaemon, library: &mut Library, notification: Notification) -> Outcome {
    let mut task = daemon.dispatch(notification);
    let mut steps: usize = 0;
    while let Some(request) = task.pending() {
        steps += 1;
        assert!(steps <= 5, "a task makes at most five requests");
        let reply = library.perform(&request);
        task = task.resume(reply);
    }
    assert!(task.is_finished());
    task.outcome().expect("a finished task has an outcome").clone()
}

fn text(path: &str) -> Option<String> {
    Some(path.to_string())
}

#[test]
fn create_supported_file_mounts_once_then_fixes_orphans() {
    let mut library = Library::default();
    library.on_disk.push("/lib/movies/Foo.mkv".to_string());
    let outcome = handle(&movies(), &mut library, Notification::Create(text("/lib/movies/Foo.mkv")));
    assert_eq!(outcome, Outcome::Reconciled);
    assert_eq!(
        library.asked,
        vec![
            Request::Probe { created: text("/lib/movies/Foo.mkv") },
            Request::Mount { path: "/lib/movies/Foo.mkv".to_string() },
            Request::FixOrphans,
        ]
    );
}

#[test]
fn create_unsupported_file_only_fixes_orphans() {
    let mut library = Library::default();
    library.on_disk.push("/lib/movies/poster.jpg".to_string());
    let outcome =
        handle(&movies(), &mut library, Notification::Create(text("/lib/movies/poster.jpg")));
    assert_eq!(outcome, Outcome::Reconciled);
    assert_eq!(
        library.asked,
        vec![Request::Probe { created: text("/lib/movies/poster.jpg") }, Request::FixOrphans]
    );
    assert_eq!(library.count(|r| matches!(r, Request::Mount { .. })), 0);
    assert_eq!(library.count(|r| matches!(r, Request::Scan { .. })), 0);
    assert_eq!(library.count(|r| matches!(r, Request::FixOrphans)), 1);
}

#[test]
fn create_directory_is_scanned_then_orphans_are_fixed() {
    let mut library = Library::default();
    library.directories.push("/lib/movies/Season.mkv".to_string());
    let outcome =
        handle(&movies(), &mut library, Notification::Create(text("/lib/movies/Season.mkv")));
    assert_eq!(outcome, Outcome::Reconciled);
    assert_eq!(
        library.asked,
        vec![
            Request::Probe { created: text("/lib/movies/Season.mkv") },
            Request::Scan { directory: text("/lib/movies/Season.mkv") },
            Request::FixOrphans,
        ]
    );
}

#[test]
fn create_with_failed_mount_skips_the_orphan_pass() {
    let mut library = Library::default();
    library.on_disk.push("/lib/movies/Foo.mkv".to_string());
    library.refuse_mount = true;
    let outcome = handle(&movies(), &mut library, Notification::Create(text("/lib/movies/Foo.mkv")));
    assert_eq!(
        outcome,
        Outcome::MountFailed {
            path: "/lib/movies/Foo.mkv".to_string(),
            reason: "probe failed".to_string(),
        }
    );
    assert_eq!(outcome.severity(), Some(Severity::Warning));
    assert_eq!(library.count(|r| matches!(r, Request::Mount { .. })), 1);
    assert_eq!(library.count(|r| matches!(r, Request::FixOrphans)), 0);
}

#[test]
fn create_of_a_vanished_path_only_fixes_orphans() {
    let mut library = Library::default();
    let outcome = handle(&movies(), &mut library, Notification::Create(text("/lib/movies/Foo.mkv")));
    assert_eq!(outcome, Outcome::Reconciled);
    assert_eq!(
        library.asked,
        vec![Request::Probe { created: text("/lib/movies/Foo.mkv") }, Request::FixOrphans]
    );
}

#[test]
fn remove_file_of_shared_work_keeps_the_work() {
    let mut library = Library::default()
        .with_file(1, "/lib/movies/Foo.mkv", 10)
        .with_file(2, "/lib/movies/Foo.part2.mkv", 10);
    let outcome = handle(&movies(), &mut library, Notification::Remove(text("/lib/movies/Foo.mkv")));
    assert_eq!(outcome, Outcome::FileRemoved { file: FileId(1) });
    assert_eq!(outcome.severity(), None);
    assert!(library.file(1).is_none());
    assert_eq!(library.works, vec![10]);
    assert_eq!(library.files_of(10), vec![2]);
    assert_eq!(library.file(2).map(|row| row.path.as_str()), Some("/lib/movies/Foo.part2.mkv"));
    assert_eq!(library.count(|r| matches!(r, Request::DeleteWork { .. })), 0);
}

#[test]
fn remove_last_file_deletes_file_then_work() {
    let mut library = Library::default()
        .with_file(1, "/lib/movies/Bar.mkv", 20)
        .with_file(2, "/lib/movies/Foo.mkv", 10);
    let outcome = handle(&movies(), &mut library, Notification::Remove(text("/lib/movies/Bar.mkv")));
    assert_eq!(outcome, Outcome::WorkRemoved { file: FileId(1), work: WorkId(20) });
    assert!(library.file(1).is_none());
    assert_eq!(library.works, vec![10]);
    assert_eq!(library.files_of(10), vec![2]);
    assert_eq!(
        library.asked,
        vec![
            Request::FindFileByPath { path: "/lib/movies/Bar.mkv".to_string() },
            Request::FindWorkOfFile { file: FileId(1) },
            Request::DeleteFile { file: FileId(1) },
            Request::ListFilesOfWork { work: WorkId(20) },
            Request::DeleteWork { work: WorkId(20) },
        ]
    );
}

#[test]
fn remove_untracked_path_is_a_noop() {
    let mut library = Library::default().with_file(1, "/lib/movies/Foo.mkv", 10);
    let before = library.files.clone();
    let outcome =
        handle(&movies(), &mut library, Notification::Remove(text("/lib/movies/Other.mkv")));
    assert_eq!(outcome, Outcome::Untracked);
    assert_eq!(outcome.severity(), None);
    assert_eq!(library.files, before);
    assert_eq!(library.works, vec![10]);
    assert_eq!(
        library.asked,
        vec![Request::FindFileByPath { path: "/lib/movies/Other.mkv".to_string() }]
    );
}

#[test]
fn remove_twice_deletes_once_then_does_nothing() {
    let mut library = Library::default()
        .with_file(1, "/lib/movies/Foo.mkv", 10)
        .with_file(2, "/lib/movies/Bar.mkv", 20);
    let first = handle(&movies(), &mut library, Notification::Remove(text("/lib/movies/Foo.mkv")));
    assert_eq!(first, Outcome::WorkRemoved { file: FileId(1), work: WorkId(10) });
    let between = library.files.clone();
    let asked: usize = library.asked.len();
    let second = handle(&movies(), &mut library, Notification::Remove(text("/lib/movies/Foo.mkv")));
    assert_eq!(second, Outcome::Untracked);
    assert_eq!(second.severity(), None);
    assert_eq!(library.files, between);
    assert_eq!(library.works, vec![20]);
    assert_eq!(library.asked.len(), asked + 1);
}

#[test]
fn rename_tracked_file_updates_its_path() {
    let mut library = Library::default()
        .with_file(1, "/lib/movies/Foo.mkv", 10)
        .with_file(2, "/lib/movies/Bar.mkv", 20);
    let outcome = handle(
        &movies(),
        &mut library,
        Notification::Rename(text("/lib/movies/Foo.mkv"), text("/lib/movies/Foo (2020).mkv")),
    );
    assert_eq!(outcome, Outcome::Renamed { file: FileId(1) });
    assert_eq!(
        library.file(1),
        Some(&Row {
            id: 1,
            path: "/lib/movies/Foo (2020).mkv".to_string(),
            work: 10,
            raw_name: "raw-1".to_string(),
        })
    );
    assert_eq!(
        library.file(2),
        Some(&Row {
            id: 2,
            path: "/lib/movies/Bar.mkv".to_string(),
            work: 20,
            raw_name: "raw-2".to_string(),
        })
    );
    assert_eq!(library.works, vec![10, 20]);
    assert_eq!(
        library.asked,
        vec![
            Request::FindFileByPath { path: "/lib/movies/Foo.mkv".to_string() },
            Request::UpdateFilePath {
                file: FileId(1),
                path: "/lib/movies/Foo (2020).mkv".to_string(),
            },
        ]
    );
}

#[test]
fn rename_untracked_file_changes_nothing() {
    let mut library = Library::default().with_file(1, "/lib/movies/Foo.mkv", 10);
    let before = library.files.clone();
    let outcome = handle(
        &movies(),
        &mut library,
        Notification::Rename(text("/lib/movies/untracked.mkv"), text("/lib/movies/renamed.mkv")),
    );
    assert_eq!(outcome, Outcome::Untracked);
    assert_eq!(outcome.severity(), None);
    assert_eq!(library.files, before);
    assert_eq!(library.count(|r| matches!(r, Request::UpdateFilePath { .. })), 0);
}

#[test]
fn rename_to_a_path_without_text_is_a_failure_and_changes_nothing() {
    let mut library = Library::default().with_file(1, "/lib/movies/Foo.mkv", 10);
    let before = library.files.clone();
    let outcome =
        handle(&movies(), &mut library, Notification::Rename(text("/lib/movies/Foo.mkv"), None));
    assert_eq!(outcome, Outcome::TargetUnrepresentable { file: FileId(1) });
    assert_eq!(outcome.severity(), Some(Severity::Error));
    assert_eq!(library.files, before);
    assert_eq!(
        library.asked,
        vec![Request::FindFileByPath { path: "/lib/movies/Foo.mkv".to_string() }]
    );
}

#[test]
fn other_notifications_ask_for_nothing() {
    let mut library = Library::default().with_file(1, "/lib/movies/Foo.mkv", 10);
    let outcome = handle(&movies(), &mut library, Notification::Other);
    assert_eq!(outcome, Outcome::Ignored);
    assert_eq!(outcome.severity(), Some(Severity::Debug));
    let outcome = handle(&movies(), &mut library, Notification::Error("channel closed".to_string()));
    assert_eq!(outcome, Outcome::WatchFailed { reason: "channel closed".to_string() });
    assert_eq!(outcome.severity(), Some(Severity::Error));
    assert!(library.asked.is_empty());
    assert_eq!(library.files.len(), 1);
}

#[test]
fn paths_without_text_match_no_record() {
    let mut library = Library::default().with_file(1, "/lib/movies/Foo.mkv", 10);
    assert_eq!(handle(&movies(), &mut library, Notification::Remove(None)), Outcome::Untracked);
    assert_eq!(
        handle(&movies(), &mut library, Notification::Rename(None, text("/lib/movies/x.mkv"))),
        Outcome::Untracked
    );
    assert!(library.asked.is_empty());
    assert_eq!(library.files.len(), 1);
}
