//! What the watch hands to the daemon.

use vstd::prelude::*;

verus! {

/// What a created path turned out to be when it was looked at.
#[derive(Clone, Copy, Debug, PartialEq, Eq, Structural)]
pub enum PathKind {
    /// A regular file.
    File,
    /// A directory.
    Directory,
    /// Neither of the two: gone again, or something special.
    Other,
}

/// One change notification.
///
/// A path is `None` where the watch reported one that has no text form; such a
/// path matches no record.
#[derive(Clone, Debug, PartialEq, Eq)]
pub enum Notification {
    /// Something appeared at the path.
    Create(Option<String>),
    /// Something moved from the first path to the second.
    Rename(Option<String>, Option<String>),
    /// Something disappeared from the path.
    Remove(Option<String>),
    /// Any other kind of change.
    Other,
    /// The watch itself reported a failure.
    Error(String),
}

/// A notification with its paths as sequences of characters.
pub enum NotificationView {
    Create(Option<Seq<char>>),
    Rename(Option<Seq<char>>, Option<Seq<char>>),
    Remove(Option<Seq<char>>),
    Other,
    Error(Seq<char>),
}

impl View for Notification {
    type V = NotificationView;

    open spec fn view(&self) -> NotificationView {
        match self {
            Notification::Create(path) => NotificationView::Create(path.deep_view()),
            Notification::Rename(from, to) => NotificationView::Rename(
                from.deep_view(),
                to.deep_view(),
            ),
            Notification::Remove(path) => NotificationView::Remove(path.deep_view()),
            Notification::Other => NotificationView::Other,
            Notification::Error(reason) => NotificationView::Error(reason@),
        }
    }
}

} // verus!
