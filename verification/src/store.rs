//! What the reconciler may expect of the catalog store, and what a task and
//! a store do to each other when they are run together.

use vstd::prelude::*;
use crate::catalog::{Catalog, FileId};
use crate::exchange::{ReplyView, RequestView};
use crate::task::TaskView;

verus! {

/// One request served: the reply that came back, and the catalog as it was
/// once the reply had come.
pub struct Exchange {
    pub reply: ReplyView,
    pub after: Catalog,
}

impl Catalog {
    /// A store that holds this catalog may answer `request` with `reply` and
    /// hold `after` from then on.
    ///
    /// A lookup changes nothing. It may come back empty for any reason, but
    /// what it finds is in the catalog. A change to a record that is reported
    /// as done was made, and only that one was made; one that is reported as
    /// failed was not made. Deleting a work says nothing of its files: the
    /// model follows it only for a work that has none. The ingestors add
    /// whatever they find on disk, so nothing is said of the catalog after
    /// them.
    pub open spec fn serves(self, request: RequestView, reply: ReplyView, after: Catalog) -> bool {
        match request {
            RequestView::Probe { .. } => reply is Kind && after == self,
            RequestView::Mount { .. } | RequestView::Scan { .. } | RequestView::FixOrphans => {
                reply is Done || reply is Failed
            },
            RequestView::FindFileByPath { path } => after == self && match reply {
                ReplyView::File(Some(file)) => self.holds(file, path),
                ReplyView::File(None) => true,
                _ => false,
            },
            RequestView::FindWorkOfFile { file } => after == self && match reply {
                ReplyView::Work(Some(work)) => self.owns(work, file) && self.works.contains(work),
                ReplyView::Work(None) => true,
                _ => false,
            },
            RequestView::ListFilesOfWork { work } => after == self && match reply {
                ReplyView::Files(Some(files)) => forall|file: FileId|
                    files.contains(file) <==> self.owns(work, file),
                ReplyView::Files(None) => true,
                _ => false,
            },
            RequestView::DeleteFile { file } => match reply {
                ReplyView::Done => self.has_file(file) && after == self.without_file(file),
                ReplyView::Failed(_) => after == self,
                _ => false,
            },
            RequestView::DeleteWork { work } => match reply {
                ReplyView::Done => self.works.contains(work) && (self.is_ghost(work) ==> after
                    == self.without_work(work)),
                ReplyView::Failed(_) => after == self,
                _ => false,
            },
            RequestView::UpdateFilePath { file, path } => match reply {
                ReplyView::Done => self.has_file(file) && after == self.with_path(file, path),
                ReplyView::Failed(_) => after == self,
                _ => false,
            },
        }
    }

    /// As `serves`, by a store that does not fail: a lookup finds what is
    /// there, a listing comes back, and a change is refused only where its
    /// target is missing.
    pub open spec fn serves_well(
        self,
        request: RequestView,
        reply: ReplyView,
        after: Catalog,
    ) -> bool {
        &&& self.serves(request, reply, after)
        &&& match request {
            RequestView::FindFileByPath { path } => reply == ReplyView::File(None)
                ==> !self.tracks(path),
            RequestView::FindWorkOfFile { file } => reply == ReplyView::Work(None) ==> !(
            self.has_file(file) && self.works.contains(self.files[file].work)),
            RequestView::ListFilesOfWork { .. } => reply != ReplyView::Files(None),
            RequestView::DeleteFile { file } => reply is Failed ==> !self.has_file(file),
            RequestView::DeleteWork { work } => reply is Failed ==> !self.works.contains(work),
            RequestView::UpdateFilePath { file, .. } => reply is Failed ==> !self.has_file(file),
            _ => true,
        }
    }
}

impl TaskView {
    /// `run` is a way for the task to go when it starts on a store that
    /// holds `catalog`: each exchange serves the request that was pending.
    pub open spec fn admits(self, catalog: Catalog, run: Seq<Exchange>) -> bool
        decreases run.len(),
    {
        run.len() > 0 ==> {
            &&& self.pending() matches Some(request)
            &&& catalog.serves(request, run[0].reply, run[0].after)
            &&& self.resume(run[0].reply).admits(run[0].after, run.drop_first())
        }
    }

    /// As `admits`, with a store that does not fail.
    pub open spec fn admits_well(self, catalog: Catalog, run: Seq<Exchange>) -> bool
        decreases run.len(),
    {
        run.len() > 0 ==> {
            &&& self.pending() matches Some(request)
            &&& catalog.serves_well(request, run[0].reply, run[0].after)
            &&& self.resume(run[0].reply).admits_well(run[0].after, run.drop_first())
        }
    }

    /// The task once the replies of `run` have come in.
    pub open spec fn after(self, run: Seq<Exchange>) -> TaskView
        decreases run.len(),
    {
        if run.len() == 0 {
            self
        } else {
            self.resume(run[0].reply).after(run.drop_first())
        }
    }

    /// The requests that the task makes in the course of `run`, in order.
    pub open spec fn requests(self, run: Seq<Exchange>) -> Seq<RequestView>
        decreases run.len(),
    {
        if run.len() == 0 || self.pending() is None {
            Seq::empty()
        } else {
            seq![self.pending()->0] + self.resume(run[0].reply).requests(run.drop_first())
        }
    }

    /// `run` takes the task from a store that holds `catalog` to its end.
    pub open spec fn completes(self, catalog: Catalog, run: Seq<Exchange>) -> bool {
        self.admits(catalog, run) && self.after(run) is Finished
    }

    /// As `completes`, with a store that does not fail.
    pub open spec fn completes_well(self, catalog: Catalog, run: Seq<Exchange>) -> bool {
        self.admits_well(catalog, run) && self.after(run) is Finished
    }
}

/// The catalog that a store holds after `run`, having held `catalog` before.
pub open spec fn catalog_after(catalog: Catalog, run: Seq<Exchange>) -> Catalog {
    if run.len() == 0 {
        catalog
    } else {
        run.last().after
    }
}

/// The first exchange of a run serves the pending request, and the rest of
/// the run is a run of the task that follows, on the catalog as it is by
/// then.
pub proof fn lemma_first_exchange(task: TaskView, catalog: Catalog, run: Seq<Exchange>)
    requires
        task.admits(catalog, run),
        run.len() > 0,
    ensures
        task.pending() is Some,
        catalog.serves(task.pending()->0, run[0].reply, run[0].after),
        task.resume(run[0].reply).admits(run[0].after, run.drop_first()),
        task.after(run) == task.resume(run[0].reply).after(run.drop_first()),
        catalog_after(catalog, run) == catalog_after(run[0].after, run.drop_first()),
{
    if run.len() > 1 {
        assert(run.drop_first().last() == run.last());
    }
}

/// As `lemma_first_exchange`, with a store that does not fail.
pub proof fn lemma_first_exchange_well(task: TaskView, catalog: Catalog, run: Seq<Exchange>)
    requires
        task.admits_well(catalog, run),
        run.len() > 0,
    ensures
        task.pending() is Some,
        catalog.serves_well(task.pending()->0, run[0].reply, run[0].after),
        task.resume(run[0].reply).admits_well(run[0].after, run.drop_first()),
        task.after(run) == task.resume(run[0].reply).after(run.drop_first()),
        catalog_after(catalog, run) == catalog_after(run[0].after, run.drop_first()),
{
    if run.len() > 1 {
        assert(run.drop_first().last() == run.last());
    }
}

} // verus!
