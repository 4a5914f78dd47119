//! The catalog as the reconciler reasons about it: ids that run through the
//! executable code, and a mathematical model of the records behind them.

use vstd::prelude::*;

verus! {

/// The catalog's id of a file record.
#[derive(Clone, Copy, Debug, PartialEq, Eq, Structural, Hash)]
pub struct FileId(pub i64);

/// The catalog's id of a work.
#[derive(Clone, Copy, Debug, PartialEq, Eq, Structural, Hash)]
pub struct WorkId(pub i64);

/// One file record of the model.
///
/// `path` is the key by which a notification finds the record, `work` is the
/// work that owns it, and `rest` stands for everything else the record holds,
/// which the reconciler neither reads nor writes.
pub struct FileRow {
    pub path: Seq<char>,
    pub work: WorkId,
    pub rest: Seq<u8>,
}

/// The catalog as a value: its file records by id, and the ids of its works.
pub struct Catalog {
    pub files: Map<FileId, FileRow>,
    pub works: Set<WorkId>,
}

impl Catalog {
    /// `file` is the id of a record.
    pub open spec fn has_file(self, file: FileId) -> bool {
        self.files.dom().contains(file)
    }

    /// `file` is a record whose stored path is `path`.
    pub open spec fn holds(self, file: FileId, path: Seq<char>) -> bool {
        self.has_file(file) && self.files[file].path == path
    }

    /// Some record is stored under `path`.
    pub open spec fn tracks(self, path: Seq<char>) -> bool {
        exists|file: FileId| self.holds(file, path)
    }

    /// `file` is a record that belongs to `work`.
    pub open spec fn owns(self, work: WorkId, file: FileId) -> bool {
        self.has_file(file) && self.files[file].work == work
    }

    /// `work` is in the catalog and no file belongs to it.
    pub open spec fn is_ghost(self, work: WorkId) -> bool {
        self.works.contains(work) && forall|file: FileId| !self.owns(work, file)
    }

    /// No path is stored twice.
    pub open spec fn paths_unique(self) -> bool {
        forall|f: FileId, g: FileId|
            self.has_file(f) && self.has_file(g) && self.files[f].path == self.files[g].path
                ==> f == g
    }

    /// Every file belongs to a work that the catalog holds.
    pub open spec fn owners_exist(self) -> bool {
        forall|file: FileId| self.has_file(file) ==> self.works.contains(self.files[file].work)
    }

    /// What the store keeps true of its records by itself.
    pub open spec fn well_formed(self) -> bool {
        self.paths_unique() && self.owners_exist()
    }

    /// Every work has at least one file.
    pub open spec fn ghost_free(self) -> bool {
        forall|work: WorkId| self.works.contains(work) ==> !self.is_ghost(work)
    }

    /// The catalog with the record `file` deleted.
    pub open spec fn without_file(self, file: FileId) -> Catalog {
        Catalog { files: self.files.remove(file), works: self.works }
    }

    /// The catalog with the work `work` deleted.
    pub open spec fn without_work(self, work: WorkId) -> Catalog {
        Catalog { files: self.files, works: self.works.remove(work) }
    }

    /// The catalog with the stored path of `file` set to `path`, and nothing
    /// else of that record touched.
    pub open spec fn with_path(self, file: FileId, path: Seq<char>) -> Catalog {
        Catalog {
            files: self.files.insert(
                file,
                FileRow { path: path, work: self.files[file].work, rest: self.files[file].rest },
            ),
            works: self.works,
        }
    }
}

} // verus!
