//! Keeps a media catalog in step with a watched directory tree.
//!
//! The daemon receives change notifications and decides, one request at a
//! time, what to ask of the catalog store and of the ingestors. It performs
//! none of that work itself: a [`Task`] names the next request, the caller
//! carries it out and hands the reply back.

pub mod catalog;
pub mod daemon;
pub mod event;
pub mod exchange;
pub mod extension;
pub mod laws;
pub mod outcome;
pub mod store;
pub mod task;

pub use catalog::{Catalog, FileId, FileRow, WorkId};
pub use daemon::{ScannerDaemon, Watch, DEBOUNCE_SECS};
pub use event::{Notification, NotificationView, PathKind};
pub use exchange::{Reply, ReplyView, Request, RequestView};
pub use outcome::{Outcome, OutcomeView, Severity};
pub use store::{catalog_after, Exchange};
pub use task::{Task, TaskView};
