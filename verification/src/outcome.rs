//! Discriminated outcome types shared by every store and service operation.
//!
//! Each operation ends in exactly one of a small set of terminal states:
//! success, field-level validation failure, entity-not-found, or an
//! infrastructure failure.  The variants named `Success` and `Failure` play
//! the roles usually played by `Ok` and `Err`.

use vstd::prelude::*;

use crate::model::User;

verus! {

/// Infrastructure failures that the services can report.
#[derive(Clone, Copy, PartialEq, Eq, Structural, Debug)]
pub enum SystemError {
    /// Hashing a password failed inside the crypto layer.
    Hashing,
    /// Committing or rolling back an atomic context failed.
    Transaction,
    /// Storage contradicted itself: a row vanished between two statements
    /// of one context.
    Inconsistency,
}

/// Outcome of inserting an entity.
pub enum InsertionResult<T, I, E> {
    /// The insertion succeeded; carries the record as re-read from storage.
    Success(T),
    /// The entity failed validation; carries the accumulated details.
    Invalid(I),
    /// An infrastructure failure occurred.
    Failure(E),
}

/// Outcome of querying a single entity.
pub enum QueryResult<T, E> {
    /// The entity was found.
    Success(T),
    /// No entity matched the query.
    NotFound,
    /// An infrastructure failure occurred.
    Failure(E),
}

/// Outcome of updating an entity.
pub enum UpdateResult<T, I, E> {
    /// The update succeeded; carries the record as re-read from storage.
    Success(T),
    /// The entity to update does not exist.
    NotFound,
    /// The entity failed validation; carries the accumulated details.
    Invalid(I),
    /// An infrastructure failure occurred.
    Failure(E),
}

/// Outcome of an authentication attempt.  Every way of failing collapses
/// into `NotAuthenticated`, so a caller cannot tell a missing account from
/// a wrong password or a stale token.
pub enum AuthenticationResult {
    /// Authentication succeeded; carries the authenticated account.
    Success(User),
    /// Authentication failed, for an undisclosed reason.
    NotAuthenticated,
    /// An infrastructure failure occurred.
    Failure(SystemError),
}

/// Outcome of deleting an entity.
pub enum DeletionResult<E> {
    /// The entity was deleted.
    Success,
    /// The entity to delete does not exist.
    NotFound,
    /// An infrastructure failure occurred.
    Failure(E),
}

} // verus!
