//! The account service: validation, uniqueness enforcement, secret hashing
//! and atomic commit/rollback around the user repository.
//!
//! Every mutating operation comes in two forms.  The connection-scoped form
//! (`insert`, `update`, `delete`) owns its transaction boundary: it begins
//! an atomic context on the store, runs the context-scoped form inside it,
//! commits on success and rolls back otherwise.  The context-scoped form
//! (`*_with_context`) runs against a caller-supplied context, so a caller
//! can compose several operations into one transaction.
//!
//! Each operation's contract is one *outcome* predicate relating the store
//! state before, the operation's arguments, the result, and the store state
//! after.  The predicates are total: they say which variant comes back on
//! which inputs, not merely what holds if one does.  The only freedom left
//! is whether the outside hashing call succeeds; when it fails the
//! operation reports a system error and leaves the state unchanged.
//!
//! User records carry no field-level format rules, so a validation failure
//! here always means a uniqueness conflict: the service queries the working
//! state by username and by email — both checks always run, and their
//! errors accumulate — and only then hashes and writes.

use vstd::prelude::*;

use crate::crypto::{phc_prefix, verify_ok, CryptoService};
use crate::model::{User, UserView};
use crate::outcome::{DeletionResult, InsertionResult, QueryResult, SystemError, UpdateResult};
use crate::store::{
    contains_user_id, db_wf, email_taken, first_user_with_email, first_user_with_username,
    user_by_id, user_index, username_taken, Database, DatabaseView, QueryContext,
};
use crate::user_repository::UserRepository;
use crate::validation::{create_value_validation_error, ValidationErrorView, ValidationErrors};

verus! {

/// A uniqueness validation error for one field.
pub open spec fn unique_error(field: Seq<char>, value: Seq<char>) -> ValidationErrorView {
    ValidationErrorView { field: field, code: "unique"@, value: value }
}

/// Whether inserting `u` into state `db` hits a uniqueness conflict.
pub open spec fn insert_conflicts(db: DatabaseView, u: UserView) -> bool {
    username_taken(db.users, u.username) || email_taken(db.users, u.email)
}

/// The exact validation errors an insertion conflict reports: the username
/// conflict first, then the email conflict, each only if present.
pub open spec fn insert_error_seq(db: DatabaseView, u: UserView) -> Seq<ValidationErrorView> {
    let after_username = if username_taken(db.users, u.username) {
        Seq::<ValidationErrorView>::empty().push(unique_error("username"@, u.username))
    } else {
        Seq::<ValidationErrorView>::empty()
    };
    if email_taken(db.users, u.email) {
        after_username.push(unique_error("email"@, u.email))
    } else {
        after_username
    }
}

/// Whether updating the stored record `existing` to `u` hits a uniqueness
/// conflict.  A field is re-checked only when it actually changes, so a
/// record never conflicts with its own stored row.
pub open spec fn update_conflicts(db: DatabaseView, u: UserView, existing: UserView) -> bool {
    ||| (u.username != existing.username && username_taken(db.users, u.username))
    ||| (u.email != existing.email && email_taken(db.users, u.email))
}

/// The exact validation errors an update conflict reports.
pub open spec fn update_error_seq(db: DatabaseView, u: UserView, existing: UserView) -> Seq<
    ValidationErrorView,
> {
    let after_username = if u.username != existing.username && username_taken(
        db.users,
        u.username,
    ) {
        Seq::<ValidationErrorView>::empty().push(unique_error("username"@, u.username))
    } else {
        Seq::<ValidationErrorView>::empty()
    };
    if u.email != existing.email && email_taken(db.users, u.email) {
        after_username.push(unique_error("email"@, u.email))
    } else {
        after_username
    }
}

/// The outcome relation of inserting `u`: success stores and returns the
/// re-read record — `u` with the assigned id and the hashed password, and
/// otherwise unchanged in every field; a uniqueness conflict reports the
/// accumulated errors and leaves the state unchanged; a system error can
/// arise only from the hashing call and also leaves the state unchanged.
pub open spec fn insert_outcome(
    db0: DatabaseView,
    u: UserView,
    r: InsertionResult<User, ValidationErrors, SystemError>,
    db1: DatabaseView,
) -> bool {
    match r {
        InsertionResult::Success(stored) => {
            &&& !insert_conflicts(db0, u)
            &&& stored@ == (UserView { id: db0.next_user_id, password: stored@.password, ..u })
            &&& stored@.id >= 1
            &&& verify_ok(u.password, stored@.password)
            &&& phc_prefix(stored@.password)
            &&& db1 == (DatabaseView {
                users: db0.users.push(stored@),
                next_user_id: (db0.next_user_id + 1) as u64,
                ..db0
            })
        },
        InsertionResult::Invalid(errors) => {
            &&& insert_conflicts(db0, u)
            &&& errors@ == insert_error_seq(db0, u)
            &&& db1 == db0
        },
        InsertionResult::Failure(e) => {
            &&& !insert_conflicts(db0, u)
            &&& e == SystemError::Hashing
            &&& db1 == db0
        },
    }
}

/// The outcome relation of updating to `u` when the clock read `now`:
/// an absent id reports not-found; a uniqueness conflict reports the
/// accumulated errors; success overwrites the row and returns the re-read
/// record, which equals `u` except that a changed password is hashed and
/// advances the password-reset timestamp to `now`; a system error can
/// arise only from the hashing call.  Everything but success leaves the
/// state unchanged.
pub open spec fn update_outcome_at(
    db0: DatabaseView,
    u: UserView,
    now: i64,
    r: UpdateResult<User, ValidationErrors, SystemError>,
    db1: DatabaseView,
) -> bool {
    match r {
        UpdateResult::Success(stored) => match user_by_id(db0.users, u.id) {
            Some(existing) => {
                &&& !update_conflicts(db0, u, existing)
                &&& (u.password == existing.password ==> stored@ == u)
                &&& (u.password != existing.password ==> {
                    &&& stored@ == (UserView {
                        password_reset_at: now,
                        password: stored@.password,
                        ..u
                    })
                    &&& verify_ok(u.password, stored@.password)
                    &&& phc_prefix(stored@.password)
                })
                &&& db1 == (DatabaseView {
                    users: db0.users.update(user_index(db0.users, u.id), stored@),
                    ..db0
                })
            },
            None => false,
        },
        UpdateResult::NotFound => user_by_id(db0.users, u.id) is None && db1 == db0,
        UpdateResult::Invalid(errors) => match user_by_id(db0.users, u.id) {
            Some(existing) => {
                &&& update_conflicts(db0, u, existing)
                &&& errors@ == update_error_seq(db0, u, existing)
                &&& db1 == db0
            },
            None => false,
        },
        UpdateResult::Failure(e) => match user_by_id(db0.users, u.id) {
            Some(existing) => {
                &&& e == SystemError::Hashing
                &&& u.password != existing.password
                &&& !update_conflicts(db0, u, existing)
                &&& db1 == db0
            },
            None => false,
        },
    }
}

/// The outcome relation of an update whose clock reading is not pinned.
pub open spec fn update_outcome(
    db0: DatabaseView,
    u: UserView,
    r: UpdateResult<User, ValidationErrors, SystemError>,
    db1: DatabaseView,
) -> bool {
    exists|now: i64| update_outcome_at(db0, u, now, r, db1)
}

/// The outcome relation of deleting by id: the row is removed exactly when
/// it exists, an absent id reports not-found, and no other outcome is
/// possible.
pub open spec fn delete_outcome(
    db0: DatabaseView,
    id: u64,
    r: DeletionResult<SystemError>,
    db1: DatabaseView,
) -> bool {
    match r {
        DeletionResult::Success => contains_user_id(db0.users, id) && db1 == (DatabaseView {
            users: db0.users.remove(user_index(db0.users, id)),
            ..db0
        }),
        DeletionResult::NotFound => !contains_user_id(db0.users, id) && db1 == db0,
        DeletionResult::Failure(_) => false,
    }
}

/// The outcome relation of a query by id: the stored record exactly when
/// the id exists, not-found otherwise, and never an error.
pub open spec fn query_by_id_outcome(
    db: DatabaseView,
    id: u64,
    r: QueryResult<User, SystemError>,
) -> bool {
    match r {
        QueryResult::Success(u) => user_by_id(db.users, id) == Some(u@),
        QueryResult::NotFound => user_by_id(db.users, id) is None,
        QueryResult::Failure(_) => false,
    }
}

/// The outcome relation of a query by username: the first matching record
/// in insertion order exactly when one exists.
pub open spec fn query_by_username_outcome(
    db: DatabaseView,
    username: Seq<char>,
    r: QueryResult<User, SystemError>,
) -> bool {
    match r {
        QueryResult::Success(u) => first_user_with_username(db.users, username) == Some(u@),
        QueryResult::NotFound => !username_taken(db.users, username)
            && first_user_with_username(db.users, username) is None,
        QueryResult::Failure(_) => false,
    }
}

/// The outcome relation of a query by email address: the first matching
/// record in insertion order exactly when one exists.
pub open spec fn query_by_email_outcome(
    db: DatabaseView,
    email: Seq<char>,
    r: QueryResult<User, SystemError>,
) -> bool {
    match r {
        QueryResult::Success(u) => first_user_with_email(db.users, email) == Some(u@),
        QueryResult::NotFound => !email_taken(db.users, email)
            && first_user_with_email(db.users, email) is None,
        QueryResult::Failure(_) => false,
    }
}

/// Usernames are pairwise distinct across the stored accounts.
pub open spec fn unique_usernames(users: Seq<UserView>) -> bool {
    forall|i: int, j: int|
        0 <= i < j < users.len() ==> (#[trigger] users[i]).username != (
        #[trigger] users[j]).username
}

/// Email addresses are pairwise distinct across the stored accounts.
pub open spec fn unique_emails(users: Seq<UserView>) -> bool {
    forall|i: int, j: int|
        0 <= i < j < users.len() ==> (#[trigger] users[i]).email != (#[trigger] users[j]).email
}

/// The account service.
pub struct UserService {
    /// The crypto service used to hash and verify account passwords.
    pub crypto_service: CryptoService,
    /// The repository used to persist account records.
    pub user_repository: UserRepository,
}

impl UserService {
    /// Build an account service around the given crypto service.
    pub fn new(crypto_service: CryptoService) -> (r: UserService)
        ensures
            r.crypto_service.jwt_encoding_key@ == crypto_service.jwt_encoding_key@,
            r.crypto_service.jwt_decoding_key@ == crypto_service.jwt_decoding_key@,
    {
        UserService { crypto_service, user_repository: UserRepository }
    }

    /// The tail of an insertion, once the password hash is in hand: store
    /// `user` with its password replaced by `password_hash`, re-read the
    /// row by the assigned id and return it.  With the hash supplied as an
    /// argument, this step always succeeds; it does not re-check
    /// uniqueness — `insert_with_context` does that before hashing.
    pub fn insert_hashed(
        &self,
        user: &User,
        password_hash: &String,
        context: &mut QueryContext,
    ) -> (r: User)
        requires
            old(context).wf(),
            old(context).working_view().next_user_id < u64::MAX,
        ensures
            final(context).wf(),
            QueryContext::same_frame(*old(context), *final(context)),
            r@ == (UserView {
                id: old(context).working_view().next_user_id,
                password: password_hash@,
                ..user@
            }),
            final(context).working_view() == (DatabaseView {
                users: old(context).working_view().users.push(r@),
                next_user_id: (old(context).working_view().next_user_id + 1) as u64,
                ..old(context).working_view()
            }),
    {
        let ghost db0 = old(context).working_view();
        let mut candidate = user.duplicate();
        candidate.password = password_hash.clone();
        proof {
            assert(candidate@ =~= (UserView { password: password_hash@, ..user@ }));
        }
        let id = match self.user_repository.insert(&candidate, context) {
            Ok(id) => id,
            Err(_) => {
                proof {
                    assert(false);
                }
                return user.duplicate();
            },
        };
        let ghost stored = crate::store::with_user_id(candidate@, id);
        let ghost db1 = context.working_view();
        proof {
            assert(db1.users[db1.users.len() - 1] == stored);
            assert(contains_user_id(db1.users, id));
            let ci = user_index(db1.users, id);
            assert(0 <= ci < db1.users.len() && db1.users[ci].id == id);
            assert forall|k: int| 0 <= k < db1.users.len() - 1 implies (
            #[trigger] db1.users[k]).id != id by {
                assert(db1.users[k] == db0.users[k]);
            }
            assert(ci == db1.users.len() - 1);
            assert(user_by_id(db1.users, id) == Some(stored));
        }
        let reread = match self.user_repository.get_by_id(&id, context) {
            Ok(found) => found,
            Err(_) => {
                proof {
                    assert(false);
                }
                return user.duplicate();
            },
        };
        match reread {
            Some(row) => {
                proof {
                    assert(row@ =~= (UserView {
                        id: db0.next_user_id,
                        password: password_hash@,
                        ..user@
                    }));
                }
                row
            },
            None => {
                proof {
                    assert(false);
                }
                user.duplicate()
            },
        }
    }

    /// Insert a user into the caller's context: check username and email
    /// availability (both checks always run; their errors accumulate), then
    /// hash the password, store the record and return it as re-read by the
    /// assigned id.
    pub fn insert_with_context(&self, user: &User, context: &mut QueryContext) -> (r:
        InsertionResult<User, ValidationErrors, SystemError>)
        requires
            old(context).wf(),
            old(context).working_view().next_user_id < u64::MAX,
        ensures
            final(context).wf(),
            QueryContext::same_frame(*old(context), *final(context)),
            insert_outcome(old(context).working_view(), user@, r, final(context).working_view()),
    {
        let ghost db0 = old(context).working_view();
        let mut validation_errors = ValidationErrors::new();
        let username_conflict = match self.user_repository.get_by_username(
            &user.username,
            context,
        ) {
            Ok(found) => found.is_some(),
            Err(e) => {
                proof {
                    assert(false);
                }
                return InsertionResult::Failure(e);
            },
        };
        if username_conflict {
            validation_errors.add(
                "username",
                create_value_validation_error("unique", &user.username),
            );
        }
        let email_conflict = match self.user_repository.get_by_email(&user.email, context) {
            Ok(found) => found.is_some(),
            Err(e) => {
                proof {
                    assert(false);
                }
                return InsertionResult::Failure(e);
            },
        };
        if email_conflict {
            validation_errors.add("email", create_value_validation_error("unique", &user.email));
        }
        if !validation_errors.is_empty() {
            proof {
                assert(validation_errors@ =~= insert_error_seq(db0, user@));
            }
            return InsertionResult::Invalid(validation_errors);
        }
        let password_hash = match self.crypto_service.hash_password(&user.password) {
            Ok(h) => h,
            Err(_) => {
                return InsertionResult::Failure(SystemError::Hashing);
            },
        };
        let stored = self.insert_hashed(user, &password_hash, context);
        InsertionResult::Success(stored)
    }

    /// Insert a user inside a transaction of the service's own: commit on
    /// success, roll back on a validation conflict or error, so that
    /// nothing of a failed insertion remains visible.
    pub fn insert(&self, user: &User, store: &mut Database) -> (r: InsertionResult<
        User,
        ValidationErrors,
        SystemError,
    >)
        requires
            db_wf(old(store)@),
            old(store)@.next_user_id < u64::MAX,
        ensures
            db_wf(final(store)@),
            insert_outcome(old(store)@, user@, r, final(store)@),
    {
        let mut context = QueryContext::begin_transaction(store);
        let result = self.insert_with_context(user, &mut context);
        let completion = match &result {
            InsertionResult::Success(_) => context.commit_if_transaction(store),
            InsertionResult::Invalid(_) => context.rollback_if_transaction(store),
            InsertionResult::Failure(_) => context.rollback_if_transaction(store),
        };
        match completion {
            Ok(()) => result,
            Err(e) => InsertionResult::Failure(e),
        }
    }

    /// Update a user in the caller's context, with the clock reading
    /// supplied by the caller: re-read the existing row, re-check
    /// uniqueness for the fields that change, and — when the password
    /// changes — hash it and advance the password-reset timestamp to
    /// `now`.
    pub fn update_with_context_at(&self, user: &User, now: i64, context: &mut QueryContext) -> (r:
        UpdateResult<User, ValidationErrors, SystemError>)
        requires
            old(context).wf(),
        ensures
            final(context).wf(),
            QueryContext::same_frame(*old(context), *final(context)),
            update_outcome_at(
                old(context).working_view(),
                user@,
                now,
                r,
                final(context).working_view(),
            ),
    {
        let ghost db0 = old(context).working_view();
        let existing_found = match self.user_repository.get_by_id(&user.id, context) {
            Ok(found) => found,
            Err(e) => {
                proof {
                    assert(false);
                }
                return UpdateResult::Failure(e);
            },
        };
        let existing = match existing_found {
            Some(existing) => existing,
            None => {
                return UpdateResult::NotFound;
            },
        };
        let mut validation_errors = ValidationErrors::new();
        if user.username != existing.username {
            let username_conflict = match self.user_repository.get_by_username(
                &user.username,
                context,
            ) {
                Ok(found) => found.is_some(),
                Err(e) => {
                    proof {
                        assert(false);
                    }
                    return UpdateResult::Failure(e);
                },
            };
            if username_conflict {
                validation_errors.add(
                    "username",
                    create_value_validation_error("unique", &user.username),
                );
            }
        }
        if user.email != existing.email {
            let email_conflict = match self.user_repository.get_by_email(&user.email, context) {
                Ok(found) => found.is_some(),
                Err(e) => {
                    proof {
                        assert(false);
                    }
                    return UpdateResult::Failure(e);
                },
            };
            if email_conflict {
                validation_errors.add(
                    "email",
                    create_value_validation_error("unique", &user.email),
                );
            }
        }
        if !validation_errors.is_empty() {
            proof {
                assert(validation_errors@ =~= update_error_seq(db0, user@, existing@));
            }
            return UpdateResult::Invalid(validation_errors);
        }
        let mut updated = user.duplicate();
        if user.password != existing.password {
            updated.password_reset_at = now;
            updated.password = match self.crypto_service.hash_password(&user.password) {
                Ok(h) => h,
                Err(_) => {
                    return UpdateResult::Failure(SystemError::Hashing);
                },
            };
            proof {
                assert(updated@ =~= (UserView {
                    password_reset_at: now,
                    password: updated@.password,
                    ..user@
                }));
            }
        }
        let rows_updated = match self.user_repository.update(&updated, context) {
            Ok(n) => n,
            Err(e) => {
                proof {
                    assert(false);
                }
                return UpdateResult::Failure(e);
            },
        };
        if rows_updated == 0 {
            proof {
                assert(contains_user_id(db0.users, updated.id));
                assert(false);
            }
            return UpdateResult::Failure(SystemError::Inconsistency);
        }
        let ghost db1 = context.working_view();
        proof {
            let idx = user_index(db0.users, user.id);
            assert(db1.users[idx] == updated@);
            assert(db1.users[idx].id == user.id);
            assert(contains_user_id(db1.users, user.id));
            let ci = user_index(db1.users, user.id);
            assert(0 <= ci < db1.users.len() && db1.users[ci].id == user.id);
            assert forall|k: int| 0 <= k < db1.users.len() && k != idx implies (
            #[trigger] db1.users[k]).id != user.id by {
                assert(db1.users[k] == db0.users[k]);
                assert(db0.users[idx].id == user.id);
            }
            assert(ci == idx);
            assert(user_by_id(db1.users, user.id) == Some(updated@));
        }
        let reread = match self.user_repository.get_by_id(&user.id, context) {
            Ok(found) => found,
            Err(e) => {
                proof {
                    assert(false);
                }
                return UpdateResult::Failure(e);
            },
        };
        match reread {
            Some(row) => UpdateResult::Success(row),
            None => {
                proof {
                    assert(false);
                }
                UpdateResult::Failure(SystemError::Inconsistency)
            },
        }
    }

    /// Update a user in the caller's context, reading the clock for the
    /// password-reset timestamp.
    pub fn update_with_context(&self, user: &User, context: &mut QueryContext) -> (r: UpdateResult<
        User,
        ValidationErrors,
        SystemError,
    >)
        requires
            old(context).wf(),
        ensures
            final(context).wf(),
            QueryContext::same_frame(*old(context), *final(context)),
            update_outcome(old(context).working_view(), user@, r, final(context).working_view()),
    {
        let now = crate::util::now_unix();
        self.update_with_context_at(user, now, context)
    }

    /// Update a user inside a transaction of the service's own: commit on
    /// success, roll back on not-found, a validation conflict or an error.
    pub fn update(&self, user: &User, store: &mut Database) -> (r: UpdateResult<
        User,
        ValidationErrors,
        SystemError,
    >)
        requires
            db_wf(old(store)@),
        ensures
            db_wf(final(store)@),
            update_outcome(old(store)@, user@, r, final(store)@),
    {
        let mut context = QueryContext::begin_transaction(store);
        let result = self.update_with_context(user, &mut context);
        let completion = match &result {
            UpdateResult::Success(_) => context.commit_if_transaction(store),
            UpdateResult::NotFound => context.rollback_if_transaction(store),
            UpdateResult::Invalid(_) => context.rollback_if_transaction(store),
            UpdateResult::Failure(_) => context.rollback_if_transaction(store),
        };
        match completion {
            Ok(()) => result,
            Err(e) => UpdateResult::Failure(e),
        }
    }

    /// Delete a user by id in the caller's context.
    pub fn delete_with_context(&self, id: &u64, context: &mut QueryContext) -> (r: DeletionResult<
        SystemError,
    >)
        requires
            old(context).wf(),
        ensures
            final(context).wf(),
            QueryContext::same_frame(*old(context), *final(context)),
            delete_outcome(old(context).working_view(), *id, r, final(context).working_view()),
    {
        let rows_deleted = match self.user_repository.delete(id, context) {
            Ok(n) => n,
            Err(e) => {
                proof {
                    assert(false);
                }
                return DeletionResult::Failure(e);
            },
        };
        if rows_deleted > 0 {
            DeletionResult::Success
        } else {
            DeletionResult::NotFound
        }
    }

    /// Delete a user by id on a connection of the service's own.
    pub fn delete(&self, id: &u64, store: &mut Database) -> (r: DeletionResult<SystemError>)
        requires
            db_wf(old(store)@),
        ensures
            db_wf(final(store)@),
            delete_outcome(old(store)@, *id, r, final(store)@),
    {
        let mut context = QueryContext::begin_connection(store);
        let result = self.delete_with_context(id, &mut context);
        context.release(store);
        result
    }

    /// Query a user by id in the caller's context.
    pub fn get_by_id_with_context(&self, id: &u64, context: &mut QueryContext) -> (r: QueryResult<
        User,
        SystemError,
    >)
        requires
            old(context).wf(),
        ensures
            *final(context) == *old(context),
            query_by_id_outcome(old(context).working_view(), *id, r),
    {
        let found = match self.user_repository.get_by_id(id, context) {
            Ok(found) => found,
            Err(e) => {
                proof {
                    assert(false);
                }
                return QueryResult::Failure(e);
            },
        };
        match found {
            Some(user) => QueryResult::Success(user),
            None => QueryResult::NotFound,
        }
    }

    /// Query a user by id on a connection of the service's own.
    pub fn get_by_id(&self, id: &u64, store: &Database) -> (r: QueryResult<User, SystemError>)
        requires
            db_wf(store@),
        ensures
            query_by_id_outcome(store@, *id, r),
    {
        let mut context = QueryContext::begin_connection(store);
        self.get_by_id_with_context(id, &mut context)
    }

    /// Query a user by username in the caller's context.
    pub fn get_by_username_with_context(&self, username: &String, context: &mut QueryContext) -> (r:
        QueryResult<User, SystemError>)
        ensures
            *final(context) == *old(context),
            query_by_username_outcome(old(context).working_view(), username@, r),
    {
        let found = match self.user_repository.get_by_username(username, context) {
            Ok(found) => found,
            Err(e) => {
                proof {
                    assert(false);
                }
                return QueryResult::Failure(e);
            },
        };
        match found {
            Some(user) => QueryResult::Success(user),
            None => QueryResult::NotFound,
        }
    }

    /// Query a user by username on a connection of the service's own.
    pub fn get_by_username(&self, username: &String, store: &Database) -> (r: QueryResult<
        User,
        SystemError,
    >)
        requires
            db_wf(store@),
        ensures
            query_by_username_outcome(store@, username@, r),
    {
        let mut context = QueryContext::begin_connection(store);
        self.get_by_username_with_context(username, &mut context)
    }

    /// Query a user by email address in the caller's context.
    pub fn get_by_email_with_context(&self, email: &String, context: &mut QueryContext) -> (r:
        QueryResult<User, SystemError>)
        ensures
            *final(context) == *old(context),
            query_by_email_outcome(old(context).working_view(), email@, r),
    {
        let found = match self.user_repository.get_by_email(email, context) {
            Ok(found) => found,
            Err(e) => {
                proof {
                    assert(false);
                }
                return QueryResult::Failure(e);
            },
        };
        match found {
            Some(user) => QueryResult::Success(user),
            None => QueryResult::NotFound,
        }
    }

    /// Query a user by email address on a connection of the service's own.
    pub fn get_by_email(&self, email: &String, store: &Database) -> (r: QueryResult<
        User,
        SystemError,
    >)
        requires
            db_wf(store@),
        ensures
            query_by_email_outcome(store@, email@, r),
    {
        let mut context = QueryContext::begin_connection(store);
        self.get_by_email_with_context(email, &mut context)
    }
}

/// Round trip: after a successful insertion, querying the resulting state
/// by the assigned id finds exactly the record the insertion returned —
/// equal to the inserted account in every field except the id, which
/// storage assigned, and the password, which was hashed.
pub proof fn lemma_insert_round_trip(
    db0: DatabaseView,
    db1: DatabaseView,
    u: UserView,
    r: InsertionResult<User, ValidationErrors, SystemError>,
)
    requires
        db_wf(db0),
        insert_outcome(db0, u, r, db1),
        r matches InsertionResult::Success(_),
    ensures
        r matches InsertionResult::Success(stored) && user_by_id(db1.users, stored@.id) == Some(
            stored@,
        ) && crate::model::same_user_except_id_password(stored@, u),
{
    match r {
        InsertionResult::Success(stored) => {
            assert(db1.users[db1.users.len() - 1] == stored@);
            assert(contains_user_id(db1.users, stored@.id));
            let ci = user_index(db1.users, stored@.id);
            assert(0 <= ci < db1.users.len() && db1.users[ci].id == stored@.id);
            assert forall|k: int| 0 <= k < db1.users.len() - 1 implies (
            #[trigger] db1.users[k]).id != stored@.id by {
                assert(db1.users[k] == db0.users[k]);
            }
            assert(ci == db1.users.len() - 1);
        },
        _ => {},
    }
}

/// Uniqueness across insertions: once an account is stored, a second
/// insertion attempt that carries the same username (or the same email
/// address) hits a uniqueness conflict, so by `insert_outcome` it reports
/// a validation failure rather than storing a duplicate.
pub proof fn lemma_insert_then_duplicate_blocked(
    db0: DatabaseView,
    db1: DatabaseView,
    stored: UserView,
    second: UserView,
)
    requires
        db1.users == db0.users.push(stored),
        second.username == stored.username || second.email == stored.email,
    ensures
        insert_conflicts(db1, second),
{
    assert(db1.users[db1.users.len() - 1] == stored);
}

/// A successful insertion preserves the committed-state invariant that
/// usernames and email addresses are unique across accounts: the new row
/// passed the availability checks against the same state it was added to.
pub proof fn lemma_insert_preserves_uniqueness(
    db0: DatabaseView,
    db1: DatabaseView,
    u: UserView,
    stored: UserView,
)
    requires
        unique_usernames(db0.users),
        unique_emails(db0.users),
        !insert_conflicts(db0, u),
        stored.username == u.username,
        stored.email == u.email,
        db1.users == db0.users.push(stored),
    ensures
        unique_usernames(db1.users),
        unique_emails(db1.users),
{
    let n = db0.users.len() as int;
    assert forall|i: int, j: int| 0 <= i < j < db1.users.len() implies (
    #[trigger] db1.users[i]).username != (#[trigger] db1.users[j]).username by {
        if j == n {
            assert(db1.users[i] == db0.users[i]);
            assert(!username_taken(db0.users, u.username));
        } else {
            assert(db1.users[i] == db0.users[i]);
            assert(db1.users[j] == db0.users[j]);
        }
    }
    assert forall|i: int, j: int| 0 <= i < j < db1.users.len() implies (
    #[trigger] db1.users[i]).email != (#[trigger] db1.users[j]).email by {
        if j == n {
            assert(db1.users[i] == db0.users[i]);
            assert(!email_taken(db0.users, u.email));
        } else {
            assert(db1.users[i] == db0.users[i]);
            assert(db1.users[j] == db0.users[j]);
        }
    }
}

/// A successful update preserves the committed-state invariant that
/// usernames and email addresses are unique across accounts: an unchanged
/// field keeps the stored row's value, and a changed one passed the
/// availability check against the same state.
pub proof fn lemma_update_preserves_uniqueness(
    db0: DatabaseView,
    db1: DatabaseView,
    u: UserView,
    existing: UserView,
    stored: UserView,
)
    requires
        db_wf(db0),
        unique_usernames(db0.users),
        unique_emails(db0.users),
        user_by_id(db0.users, u.id) == Some(existing),
        !update_conflicts(db0, u, existing),
        stored.username == u.username,
        stored.email == u.email,
        db1.users == db0.users.update(user_index(db0.users, u.id), stored),
    ensures
        unique_usernames(db1.users),
        unique_emails(db1.users),
{
    let idx = user_index(db0.users, u.id);
    assert(contains_user_id(db0.users, u.id));
    assert(0 <= idx < db0.users.len() && db0.users[idx] == existing);
    assert forall|i: int, j: int| 0 <= i < j < db1.users.len() implies (
    #[trigger] db1.users[i]).username != (#[trigger] db1.users[j]).username by {
        if i != idx && j != idx {
            assert(db1.users[i] == db0.users[i]);
            assert(db1.users[j] == db0.users[j]);
        } else {
            let other: int = if i == idx {
                j
            } else {
                i
            };
            assert(db1.users[other] == db0.users[other]);
            if u.username == existing.username {
                assert(db0.users[other].username != existing.username);
            } else {
                assert(!username_taken(db0.users, u.username));
            }
        }
    }
    assert forall|i: int, j: int| 0 <= i < j < db1.users.len() implies (
    #[trigger] db1.users[i]).email != (#[trigger] db1.users[j]).email by {
        if i != idx && j != idx {
            assert(db1.users[i] == db0.users[i]);
            assert(db1.users[j] == db0.users[j]);
        } else {
            let other: int = if i == idx {
                j
            } else {
                i
            };
            assert(db1.users[other] == db0.users[other]);
            if u.email == existing.email {
                assert(db0.users[other].email != existing.email);
            } else {
                assert(!email_taken(db0.users, u.email));
            }
        }
    }
}

/// A deletion preserves the committed-state invariant that usernames and
/// email addresses are unique across accounts: the remaining rows are a
/// selection of the previous ones.
pub proof fn lemma_delete_preserves_uniqueness(db0: DatabaseView, db1: DatabaseView, idx: int)
    requires
        unique_usernames(db0.users),
        unique_emails(db0.users),
        0 <= idx < db0.users.len(),
        db1.users == db0.users.remove(idx),
    ensures
        unique_usernames(db1.users),
        unique_emails(db1.users),
{
    assert forall|i: int, j: int| 0 <= i < j < db1.users.len() implies (
    #[trigger] db1.users[i]).username != (#[trigger] db1.users[j]).username by {
        let oi: int = if i < idx {
            i
        } else {
            i + 1
        };
        let oj: int = if j < idx {
            j
        } else {
            j + 1
        };
        assert(db1.users[i] == db0.users[oi]);
        assert(db1.users[j] == db0.users[oj]);
    }
    assert forall|i: int, j: int| 0 <= i < j < db1.users.len() implies (
    #[trigger] db1.users[i]).email != (#[trigger] db1.users[j]).email by {
        let oi: int = if i < idx {
            i
        } else {
            i + 1
        };
        let oj: int = if j < idx {
            j
        } else {
            j + 1
        };
        assert(db1.users[i] == db0.users[oi]);
        assert(db1.users[j] == db0.users[oj]);
    }
}

} // verus!
