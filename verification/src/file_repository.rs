//! CRUD primitives for file records, each executed against a caller-supplied
//! execution context.
//!
//! No business validation happens here: the repository maps records to and
//! from the store exactly as given.

use vstd::prelude::*;
use vstd::pervasive::VecAdditionalExecFns;

use crate::model::{File, FileView};
use crate::outcome::SystemError;
use crate::store::{
    contains_file_id, db_wf, file_by_id, file_index, with_file_id, Database, DatabaseView,
    QueryContext,
};

verus! {

impl Database {
    /// Append a file row, assigning it the next free id.
    pub fn insert_file_row(&mut self, file: &File) -> (id: u64)
        requires
            db_wf(old(self)@),
            old(self)@.next_file_id < u64::MAX,
        ensures
            db_wf(final(self)@),
            id == old(self)@.next_file_id,
            final(self)@ == (DatabaseView {
                files: old(self)@.files.push(with_file_id(file@, id)),
                next_file_id: (old(self)@.next_file_id + 1) as u64,
                ..old(self)@
            }),
    {
        let mut stored = file.duplicate();
        let id = self.files.next_id;
        stored.id = id;
        self.files.next_id = id + 1;
        let ghost prev = self.files.rows.deep_view();
        self.files.rows.push(stored);
        proof {
            assert(stored@ =~= with_file_id(file@, id));
            assert forall|k: int| 0 <= k < prev.len() + 1 implies #[trigger] self.files.rows.deep_view()[k]
                == prev.push(with_file_id(file@, id))[k] by {
                assert(self.files.rows.deep_view()[k] == self.files.rows@[k].deep_view());
            }
            assert(self.files.rows.deep_view() =~= prev.push(with_file_id(file@, id)));
            assert(self@ =~= (DatabaseView {
                files: old(self)@.files.push(with_file_id(file@, id)),
                next_file_id: (old(self)@.next_file_id + 1) as u64,
                ..old(self)@
            }));
        }
        id
    }

    /// Look a file row up by id.
    pub fn find_file_by_id(&self, id: u64) -> (r: Option<File>)
        requires
            db_wf(self@),
        ensures
            match r {
                Some(f) => file_by_id(self@.files, id) == Some(f@),
                None => file_by_id(self@.files, id) is None,
            },
    {
        let ghost dv = self@.files;
        let mut i: usize = 0;
        while i < self.files.rows.len()
            invariant
                i <= dv.len(),
                dv == self@.files,
                db_wf(self@),
                forall|j: int| 0 <= j < i ==> (#[trigger] dv[j]).id != id,
            decreases dv.len() - i,
        {
            if self.files.rows[i].id == id {
                let r = self.files.rows[i].duplicate();
                proof {
                    assert(dv[i as int].id == id);
                    assert(contains_file_id(dv, id));
                    let ci = file_index(dv, id);
                    assert(0 <= ci < dv.len() && dv[ci].id == id);
                    assert(ci == i);
                }
                return Some(r);
            }
            i = i + 1;
        }
        proof {
            assert(!contains_file_id(dv, id));
        }
        None
    }

    /// Overwrite the file row whose id matches the given record, returning
    /// how many rows changed (0 or 1).
    pub fn update_file_row(&mut self, file: &File) -> (n: u64)
        requires
            db_wf(old(self)@),
        ensures
            db_wf(final(self)@),
            contains_file_id(old(self)@.files, file.id) ==> n == 1 && final(self)@
                == (DatabaseView {
                files: old(self)@.files.update(file_index(old(self)@.files, file.id), file@),
                ..old(self)@
            }),
            !contains_file_id(old(self)@.files, file.id) ==> n == 0 && final(self)@ == old(self)@,
    {
        let ghost dv = self@.files;
        let mut i: usize = 0;
        while i < self.files.rows.len()
            invariant
                i <= dv.len(),
                dv == self@.files,
                self@ == old(self)@,
                db_wf(self@),
                forall|j: int| 0 <= j < i ==> (#[trigger] dv[j]).id != file.id,
            decreases dv.len() - i,
        {
            if self.files.rows[i].id == file.id {
                let ghost prev = self@;
                self.files.rows.set(i, file.duplicate());
                proof {
                    assert(dv[i as int].id == file.id);
                    assert(contains_file_id(dv, file.id));
                    let ci = file_index(dv, file.id);
                    assert(0 <= ci < dv.len() && dv[ci].id == file.id);
                    assert(ci == i);
                    assert forall|k: int| 0 <= k < dv.len() implies #[trigger] self.files.rows.deep_view()[k]
                        == dv.update(i as int, file@)[k] by {
                        assert(self.files.rows.deep_view()[k] == self.files.rows@[k].deep_view());
                    }
                    assert(self.files.rows.deep_view() =~= dv.update(i as int, file@));
                    assert(self@ =~= (DatabaseView {
                        files: dv.update(i as int, file@),
                        ..prev
                    }));
                    assert forall|k: int| 0 <= k < self@.files.len() implies 1 <= (
                    #[trigger] self@.files[k]).id < self@.next_file_id by {
                        if k != i {
                            assert(dv[k].id == self@.files[k].id);
                        }
                    }
                    assert forall|a: int, b: int| 0 <= a < b < self@.files.len() implies (
                    #[trigger] self@.files[a]).id != (#[trigger] self@.files[b]).id by {
                        assert(self@.files[a].id == dv[a].id);
                        assert(self@.files[b].id == dv[b].id);
                    }
                }
                return 1;
            }
            i = i + 1;
        }
        proof {
            assert(!contains_file_id(dv, file.id));
        }
        0
    }

    /// Delete the file row with the given id, returning how many rows were
    /// removed (0 or 1).
    pub fn delete_file_row(&mut self, id: u64) -> (n: u64)
        requires
            db_wf(old(self)@),
        ensures
            db_wf(final(self)@),
            contains_file_id(old(self)@.files, id) ==> n == 1 && final(self)@ == (DatabaseView {
                files: old(self)@.files.remove(file_index(old(self)@.files, id)),
                ..old(self)@
            }),
            !contains_file_id(old(self)@.files, id) ==> n == 0 && final(self)@ == old(self)@,
    {
        let ghost dv = self@.files;
        let mut i: usize = 0;
        while i < self.files.rows.len()
            invariant
                i <= dv.len(),
                dv == self@.files,
                self@ == old(self)@,
                db_wf(self@),
                forall|j: int| 0 <= j < i ==> (#[trigger] dv[j]).id != id,
            decreases dv.len() - i,
        {
            if self.files.rows[i].id == id {
                let ghost prev = self@;
                self.files.rows.remove(i);
                proof {
                    assert(dv[i as int].id == id);
                    assert(contains_file_id(dv, id));
                    let ci = file_index(dv, id);
                    assert(0 <= ci < dv.len() && dv[ci].id == id);
                    assert(ci == i);
                    assert forall|k: int| 0 <= k < dv.len() - 1 implies #[trigger] self.files.rows.deep_view()[k]
                        == dv.remove(i as int)[k] by {
                        assert(self.files.rows.deep_view()[k] == self.files.rows@[k].deep_view());
                        if k < i {
                            assert(self.files.rows@[k].deep_view() == prev.files[k]);
                        }
                    }
                    assert(self.files.rows.deep_view() =~= dv.remove(i as int));
                    assert(self@ =~= (DatabaseView { files: dv.remove(i as int), ..prev }));
                    assert forall|k: int| 0 <= k < self@.files.len() implies 1 <= (
                    #[trigger] self@.files[k]).id < self@.next_file_id by {
                        if k < i {
                            assert(self@.files[k] == dv[k]);
                        } else {
                            assert(self@.files[k] == dv[k + 1]);
                        }
                    }
                    assert forall|a: int, b: int| 0 <= a < b < self@.files.len() implies (
                    #[trigger] self@.files[a]).id != (#[trigger] self@.files[b]).id by {
                        let oa: int = if a < i { a } else { a + 1 };
                        let ob: int = if b < i { b } else { b + 1 };
                        assert(self@.files[a] == dv[oa]);
                        assert(self@.files[b] == dv[ob]);
                    }
                }
                return 1;
            }
            i = i + 1;
        }
        proof {
            assert(!contains_file_id(dv, id));
        }
        0
    }
}

/// The persistence mapper for file records.  It holds no state of its own:
/// every operation runs against the context it is handed.
pub struct FileRepository;

impl FileRepository {
    /// Insert a file into the store, returning the assigned id.
    pub fn insert(&self, file: &File, context: &mut QueryContext) -> (r: Result<u64, SystemError>)
        requires
            old(context).wf(),
            old(context).working_view().next_file_id < u64::MAX,
        ensures
            final(context).wf(),
            QueryContext::same_frame(*old(context), *final(context)),
            r matches Ok(id) && id == old(context).working_view().next_file_id,
            final(context).working_view() == (DatabaseView {
                files: old(context).working_view().files.push(
                    with_file_id(file@, old(context).working_view().next_file_id),
                ),
                next_file_id: (old(context).working_view().next_file_id + 1) as u64,
                ..old(context).working_view()
            }),
    {
        match context {
            QueryContext::Connection(db) => Ok(db.insert_file_row(file)),
            QueryContext::Transaction { base: _, working } => Ok(working.insert_file_row(file)),
        }
    }

    /// Query a file from the store by id.
    pub fn get(&self, id: &u64, context: &mut QueryContext) -> (r: Result<
        Option<File>,
        SystemError,
    >)
        requires
            old(context).wf(),
        ensures
            *final(context) == *old(context),
            r matches Ok(opt) && match opt {
                Some(f) => file_by_id(old(context).working_view().files, *id) == Some(f@),
                None => file_by_id(old(context).working_view().files, *id) is None,
            },
    {
        match context {
            QueryContext::Connection(db) => Ok(db.find_file_by_id(*id)),
            QueryContext::Transaction { base: _, working } => Ok(working.find_file_by_id(*id)),
        }
    }

    /// Overwrite the file row whose id matches the given record, returning
    /// how many rows changed.
    pub fn update(&self, file: &File, context: &mut QueryContext) -> (r: Result<u64, SystemError>)
        requires
            old(context).wf(),
        ensures
            final(context).wf(),
            QueryContext::same_frame(*old(context), *final(context)),
            contains_file_id(old(context).working_view().files, file.id) ==> (r matches Ok(n) && n
                == 1 && final(context).working_view() == (DatabaseView {
                files: old(context).working_view().files.update(
                    file_index(old(context).working_view().files, file.id),
                    file@,
                ),
                ..old(context).working_view()
            })),
            !contains_file_id(old(context).working_view().files, file.id) ==> (r matches Ok(n) && n
                == 0 && final(context).working_view() == old(context).working_view()),
    {
        match context {
            QueryContext::Connection(db) => Ok(db.update_file_row(file)),
            QueryContext::Transaction { base: _, working } => Ok(working.update_file_row(file)),
        }
    }

    /// Delete the file row with the given id, returning how many rows were
    /// removed.
    pub fn delete(&self, id: &u64, context: &mut QueryContext) -> (r: Result<u64, SystemError>)
        requires
            old(context).wf(),
        ensures
            final(context).wf(),
            QueryContext::same_frame(*old(context), *final(context)),
            contains_file_id(old(context).working_view().files, *id) ==> (r matches Ok(n) && n == 1
                && final(context).working_view() == (DatabaseView {
                files: old(context).working_view().files.remove(
                    file_index(old(context).working_view().files, *id),
                ),
                ..old(context).working_view()
            })),
            !contains_file_id(old(context).working_view().files, *id) ==> (r matches Ok(n) && n
                == 0 && final(context).working_view() == old(context).working_view()),
    {
        match context {
            QueryContext::Connection(db) => Ok(db.delete_file_row(*id)),
            QueryContext::Transaction { base: _, working } => Ok(working.delete_file_row(*id)),
        }
    }
}

} // verus!
