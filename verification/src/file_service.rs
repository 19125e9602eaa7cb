//! The file service: field validation and atomic commit/rollback around the
//! file repository — the account service's pattern reused for an owned
//! resource, minus uniqueness concerns and secret handling.
//!
//! Ownership (only the owning account may touch a file) is enforced by the
//! calling layer, not here: the service trusts the caller-provided record.
//!
//! In this in-memory store nothing after validation can fail, so every
//! outcome predicate here rules the error variant out entirely.

use vstd::prelude::*;

use crate::file_repository::FileRepository;
use crate::model::{File, FileView};
use crate::outcome::{DeletionResult, InsertionResult, QueryResult, SystemError, UpdateResult};
use crate::store::{
    contains_file_id, db_wf, file_by_id, file_index, Database, DatabaseView, QueryContext,
};
use crate::validation::{
    create_value_validation_error, no_control_chars, valid_text_length, ValidationErrorView,
    ValidationErrors,
};

verus! {

/// The field rules for a file record: mime type and name each hold no
/// control character and are between 1 and 256 characters long.
pub open spec fn file_valid(f: FileView) -> bool {
    &&& no_control_chars(f.mime_type)
    &&& valid_text_length(f.mime_type)
    &&& no_control_chars(f.name)
    &&& valid_text_length(f.name)
}

/// A field-rule validation error.
pub open spec fn rule_error(field: Seq<char>, code: Seq<char>, value: Seq<char>) -> ValidationErrorView {
    ValidationErrorView { field: field, code: code, value: value }
}

/// The exact validation errors a file's fields report: per field (mime
/// type first, then name), the control-character rule before the length
/// rule, each only if broken.
pub open spec fn file_error_seq(f: FileView) -> Seq<ValidationErrorView> {
    let s0 = Seq::<ValidationErrorView>::empty();
    let s1 = if !no_control_chars(f.mime_type) {
        s0.push(rule_error("mime_type"@, "non_control_character"@, f.mime_type))
    } else {
        s0
    };
    let s2 = if !valid_text_length(f.mime_type) {
        s1.push(rule_error("mime_type"@, "length"@, f.mime_type))
    } else {
        s1
    };
    let s3 = if !no_control_chars(f.name) {
        s2.push(rule_error("name"@, "non_control_character"@, f.name))
    } else {
        s2
    };
    if !valid_text_length(f.name) {
        s3.push(rule_error("name"@, "length"@, f.name))
    } else {
        s3
    }
}

/// The outcome relation of inserting `f`: a valid record is stored under
/// the assigned id and returned as re-read, an invalid one reports the
/// accumulated field errors and leaves the state unchanged, and no other
/// outcome is possible.
pub open spec fn file_insert_outcome(
    db0: DatabaseView,
    f: FileView,
    r: InsertionResult<File, ValidationErrors, SystemError>,
    db1: DatabaseView,
) -> bool {
    match r {
        InsertionResult::Success(stored) => {
            &&& file_valid(f)
            &&& stored@ == (FileView { id: db0.next_file_id, ..f })
            &&& stored@.id >= 1
            &&& db1 == (DatabaseView {
                files: db0.files.push(stored@),
                next_file_id: (db0.next_file_id + 1) as u64,
                ..db0
            })
        },
        InsertionResult::Invalid(errors) => {
            &&& !file_valid(f)
            &&& errors@ == file_error_seq(f)
            &&& db1 == db0
        },
        InsertionResult::Failure(_) => false,
    }
}

/// The outcome relation of updating to `f`: a valid record overwrites the
/// row with its id exactly when that row exists; an absent id reports
/// not-found, an invalid record the accumulated field errors, and no other
/// outcome is possible.  Everything but success leaves the state
/// unchanged.
pub open spec fn file_update_outcome(
    db0: DatabaseView,
    f: FileView,
    r: UpdateResult<File, ValidationErrors, SystemError>,
    db1: DatabaseView,
) -> bool {
    match r {
        UpdateResult::Success(stored) => {
            &&& file_valid(f)
            &&& contains_file_id(db0.files, f.id)
            &&& stored@ == f
            &&& db1 == (DatabaseView {
                files: db0.files.update(file_index(db0.files, f.id), f),
                ..db0
            })
        },
        UpdateResult::NotFound => file_valid(f) && !contains_file_id(db0.files, f.id) && db1
            == db0,
        UpdateResult::Invalid(errors) => {
            &&& !file_valid(f)
            &&& errors@ == file_error_seq(f)
            &&& db1 == db0
        },
        UpdateResult::Failure(_) => false,
    }
}

/// The outcome relation of deleting by id: the row is removed exactly when
/// it exists, an absent id reports not-found, and no other outcome is
/// possible.
pub open spec fn file_delete_outcome(
    db0: DatabaseView,
    id: u64,
    r: DeletionResult<SystemError>,
    db1: DatabaseView,
) -> bool {
    match r {
        DeletionResult::Success => contains_file_id(db0.files, id) && db1 == (DatabaseView {
            files: db0.files.remove(file_index(db0.files, id)),
            ..db0
        }),
        DeletionResult::NotFound => !contains_file_id(db0.files, id) && db1 == db0,
        DeletionResult::Failure(_) => false,
    }
}

/// The outcome relation of a query by id: the stored record exactly when
/// the id exists, not-found otherwise, and never an error.
pub open spec fn file_query_outcome(
    db: DatabaseView,
    id: u64,
    r: QueryResult<File, SystemError>,
) -> bool {
    match r {
        QueryResult::Success(f) => file_by_id(db.files, id) == Some(f@),
        QueryResult::NotFound => file_by_id(db.files, id) is None,
        QueryResult::Failure(_) => false,
    }
}

/// The file service.
pub struct FileService {
    /// The repository used to persist file records.
    pub file_repository: FileRepository,
}

impl FileService {
    /// Build a file service.
    pub fn new() -> (r: FileService) {
        FileService { file_repository: FileRepository }
    }

    /// Validate a file's text fields, accumulating one error per broken
    /// rule in field order.
    fn validate_file(&self, file: &File) -> (r: ValidationErrors)
        ensures
            r@ == file_error_seq(file@),
            r@.len() == 0 <==> file_valid(file@),
    {
        let mut validation_errors = ValidationErrors::new();
        if !crate::validation::has_no_control_chars(&file.mime_type) {
            validation_errors.add(
                "mime_type",
                create_value_validation_error("non_control_character", &file.mime_type),
            );
        }
        if !crate::validation::has_valid_text_length(&file.mime_type) {
            validation_errors.add(
                "mime_type",
                create_value_validation_error("length", &file.mime_type),
            );
        }
        if !crate::validation::has_no_control_chars(&file.name) {
            validation_errors.add(
                "name",
                create_value_validation_error("non_control_character", &file.name),
            );
        }
        if !crate::validation::has_valid_text_length(&file.name) {
            validation_errors.add("name", create_value_validation_error("length", &file.name));
        }
        proof {
            assert(validation_errors@ =~= file_error_seq(file@));
        }
        validation_errors
    }

    /// Insert a file into the caller's context: validate its fields, store
    /// the record and return it as re-read by the assigned id.
    pub fn insert_with_context(&self, file: &File, context: &mut QueryContext) -> (r:
        InsertionResult<File, ValidationErrors, SystemError>)
        requires
            old(context).wf(),
            old(context).working_view().next_file_id < u64::MAX,
        ensures
            final(context).wf(),
            QueryContext::same_frame(*old(context), *final(context)),
            file_insert_outcome(
                old(context).working_view(),
                file@,
                r,
                final(context).working_view(),
            ),
    {
        let ghost db0 = old(context).working_view();
        let validation_errors = self.validate_file(file);
        if !validation_errors.is_empty() {
            return InsertionResult::Invalid(validation_errors);
        }
        let id = match self.file_repository.insert(file, context) {
            Ok(id) => id,
            Err(e) => {
                proof {
                    assert(false);
                }
                return InsertionResult::Failure(e);
            },
        };
        let ghost stored = crate::store::with_file_id(file@, id);
        let ghost db1 = context.working_view();
        proof {
            assert(db1.files[db1.files.len() - 1] == stored);
            assert(contains_file_id(db1.files, id));
            let ci = file_index(db1.files, id);
            assert(0 <= ci < db1.files.len() && db1.files[ci].id == id);
            assert forall|k: int| 0 <= k < db1.files.len() - 1 implies (
            #[trigger] db1.files[k]).id != id by {
                assert(db1.files[k] == db0.files[k]);
            }
            assert(ci == db1.files.len() - 1);
            assert(file_by_id(db1.files, id) == Some(stored));
        }
        let reread = match self.file_repository.get(&id, context) {
            Ok(found) => found,
            Err(e) => {
                proof {
                    assert(false);
                }
                return InsertionResult::Failure(e);
            },
        };
        match reread {
            Some(row) => {
                proof {
                    assert(row@ =~= (FileView { id: db0.next_file_id, ..file@ }));
                }
                InsertionResult::Success(row)
            },
            None => {
                proof {
                    assert(false);
                }
                InsertionResult::Failure(SystemError::Inconsistency)
            },
        }
    }

    /// Insert a file inside a transaction of the service's own: commit on
    /// success, roll back otherwise.
    pub fn insert(&self, file: &File, store: &mut Database) -> (r: InsertionResult<
        File,
        ValidationErrors,
        SystemError,
    >)
        requires
            db_wf(old(store)@),
            old(store)@.next_file_id < u64::MAX,
        ensures
            db_wf(final(store)@),
            file_insert_outcome(old(store)@, file@, r, final(store)@),
    {
        let mut context = QueryContext::begin_transaction(store);
        let result = self.insert_with_context(file, &mut context);
        let completion = match &result {
            InsertionResult::Success(_) => context.commit_if_transaction(store),
            InsertionResult::Invalid(_) => context.rollback_if_transaction(store),
            InsertionResult::Failure(_) => context.rollback_if_transaction(store),
        };
        match completion {
            Ok(()) => result,
            Err(e) => InsertionResult::Failure(e),
        }
    }

    /// Update a file in the caller's context: validate its fields, apply
    /// the update to the row with its id, and return the record as
    /// re-read.  Zero rows affected reports not-found.
    pub fn update_with_context(&self, file: &File, context: &mut QueryContext) -> (r: UpdateResult<
        File,
        ValidationErrors,
        SystemError,
    >)
        requires
            old(context).wf(),
        ensures
            final(context).wf(),
            QueryContext::same_frame(*old(context), *final(context)),
            file_update_outcome(
                old(context).working_view(),
                file@,
                r,
                final(context).working_view(),
            ),
    {
        let ghost db0 = old(context).working_view();
        let validation_errors = self.validate_file(file);
        if !validation_errors.is_empty() {
            return UpdateResult::Invalid(validation_errors);
        }
        let rows_updated = match self.file_repository.update(file, context) {
            Ok(n) => n,
            Err(e) => {
                proof {
                    assert(false);
                }
                return UpdateResult::Failure(e);
            },
        };
        if rows_updated == 0 {
            return UpdateResult::NotFound;
        }
        let ghost db1 = context.working_view();
        proof {
            let idx = file_index(db0.files, file.id);
            assert(db1.files[idx] == file@);
            assert(contains_file_id(db1.files, file.id));
            let ci = file_index(db1.files, file.id);
            assert(0 <= ci < db1.files.len() && db1.files[ci].id == file.id);
            assert forall|k: int| 0 <= k < db1.files.len() && k != idx implies (
            #[trigger] db1.files[k]).id != file.id by {
                assert(db1.files[k] == db0.files[k]);
                assert(db0.files[idx].id == file.id);
            }
            assert(ci == idx);
            assert(file_by_id(db1.files, file.id) == Some(file@));
        }
        let reread = match self.file_repository.get(&file.id, context) {
            Ok(found) => found,
            Err(e) => {
                proof {
                    assert(false);
                }
                return UpdateResult::Failure(e);
            },
        };
        match reread {
            Some(row) => UpdateResult::Success(row),
            None => {
                proof {
                    assert(false);
                }
                UpdateResult::Failure(SystemError::Inconsistency)
            },
        }
    }

    /// Update a file inside a transaction of the service's own: commit on
    /// success, roll back otherwise.
    pub fn update(&self, file: &File, store: &mut Database) -> (r: UpdateResult<
        File,
        ValidationErrors,
        SystemError,
    >)
        requires
            db_wf(old(store)@),
        ensures
            db_wf(final(store)@),
            file_update_outcome(old(store)@, file@, r, final(store)@),
    {
        let mut context = QueryContext::begin_transaction(store);
        let result = self.update_with_context(file, &mut context);
        let completion = match &result {
            UpdateResult::Success(_) => context.commit_if_transaction(store),
            UpdateResult::NotFound => context.rollback_if_transaction(store),
            UpdateResult::Invalid(_) => context.rollback_if_transaction(store),
            UpdateResult::Failure(_) => context.rollback_if_transaction(store),
        };
        match completion {
            Ok(()) => result,
            Err(e) => UpdateResult::Failure(e),
        }
    }

    /// Delete a file by id in the caller's context.
    pub fn delete_with_context(&self, id: &u64, context: &mut QueryContext) -> (r: DeletionResult<
        SystemError,
    >)
        requires
            old(context).wf(),
        ensures
            final(context).wf(),
            QueryContext::same_frame(*old(context), *final(context)),
            file_delete_outcome(old(context).working_view(), *id, r, final(context).working_view()),
    {
        let rows_deleted = match self.file_repository.delete(id, context) {
            Ok(n) => n,
            Err(e) => {
                proof {
                    assert(false);
                }
                return DeletionResult::Failure(e);
            },
        };
        if rows_deleted > 0 {
            DeletionResult::Success
        } else {
            DeletionResult::NotFound
        }
    }

    /// Delete a file by id on a connection of the service's own.
    pub fn delete(&self, id: &u64, store: &mut Database) -> (r: DeletionResult<SystemError>)
        requires
            db_wf(old(store)@),
        ensures
            db_wf(final(store)@),
            file_delete_outcome(old(store)@, *id, r, final(store)@),
    {
        let mut context = QueryContext::begin_connection(store);
        let result = self.delete_with_context(id, &mut context);
        context.release(store);
        result
    }

    /// Query a file by id in the caller's context.
    pub fn get_with_context(&self, id: &u64, context: &mut QueryContext) -> (r: QueryResult<
        File,
        SystemError,
    >)
        requires
            old(context).wf(),
        ensures
            *final(context) == *old(context),
            file_query_outcome(old(context).working_view(), *id, r),
    {
        let found = match self.file_repository.get(id, context) {
            Ok(found) => found,
            Err(e) => {
                proof {
                    assert(false);
                }
                return QueryResult::Failure(e);
            },
        };
        match found {
            Some(file) => QueryResult::Success(file),
            None => QueryResult::NotFound,
        }
    }

    /// Query a file by id on a connection of the service's own.
    pub fn get(&self, id: &u64, store: &Database) -> (r: QueryResult<File, SystemError>)
        requires
            db_wf(store@),
        ensures
            file_query_outcome(store@, *id, r),
    {
        let mut context = QueryContext::begin_connection(store);
        self.get_with_context(id, &mut context)
    }
}

} // verus!
