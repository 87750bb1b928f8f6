//! The error taxonomy of the engine, and how a failure reported by the
//! store's driver falls under it.

use vstd::prelude::*;

verus! {

/// The kinds of error that the engine returns.
#[derive(Debug, Clone, Copy, PartialEq, Eq, Structural)]
pub enum ErrorKind {
    /// No row where exactly one was expected.
    NotFound,
    /// The store refused the statement because of a foreign key or a
    /// uniqueness constraint.
    ConstraintViolation,
    /// The statement or its values are at fault: malformed text, a value of
    /// the wrong type, a row that does not decode.
    QueryError,
    /// The store could not be reached: the pool is exhausted or closed, or
    /// the transport failed.
    ConnectionError,
}

/// The constraint that a statement violated, as the store reports it.
#[derive(Debug, Clone, Copy, PartialEq, Eq, Structural)]
pub enum Violation {
    /// A unique or primary key constraint.
    Unique,
    /// A foreign key constraint.
    ForeignKey,
    /// A not-null constraint.
    NotNull,
    /// A check constraint.
    Check,
    /// No constraint that the driver tells apart.
    Unclassified,
}

/// What went wrong, as the driver reports it.
#[derive(Debug, Clone, Copy, PartialEq, Eq, Structural)]
pub enum StoreFailure {
    /// A statement that must return a row returned none.
    RowNotFound,
    /// The store itself rejected the statement.
    Database(Violation),
    /// Reading from or writing to the connection failed.
    Io,
    /// The secure channel could not be set up.
    Tls,
    /// The store sent data that the driver did not expect.
    Protocol,
    /// No connection became free in time.
    PoolTimedOut,
    /// The pool was closed.
    PoolClosed,
    /// The driver's background worker is gone.
    WorkerCrashed,
    /// Anything else: configuration, arguments, encoding, decoding, unknown
    /// columns or types.
    Other,
}

#[verifier::external_type_specification]
#[verifier::external_body]
pub struct ExDriverError(sqlx::Error);

/// The variant of a driver error, constraint violations not yet told apart.
pub uninterp spec fn reported_failure(error: sqlx::Error) -> StoreFailure;

/// The kind of constraint violation that a driver error carries.
pub uninterp spec fn reported_violation(error: sqlx::Error) -> Violation;

/// Tells the variants of `sqlx::Error` apart. A database error is reported
/// as `Database(Unclassified)`: the violation is read separately.
#[verifier::external_body]
pub(crate) fn error_variant(error: &sqlx::Error) -> (failure: StoreFailure)
    ensures
        failure == reported_failure(*error),
{
    match error {
        sqlx::Error::RowNotFound => StoreFailure::RowNotFound,
        sqlx::Error::Database(_) => StoreFailure::Database(Violation::Unclassified),
        sqlx::Error::Io(_) => StoreFailure::Io,
        sqlx::Error::Tls(_) => StoreFailure::Tls,
        sqlx::Error::Protocol(_) => StoreFailure::Protocol,
        sqlx::Error::PoolTimedOut => StoreFailure::PoolTimedOut,
        sqlx::Error::PoolClosed => StoreFailure::PoolClosed,
        sqlx::Error::WorkerCrashed => StoreFailure::WorkerCrashed,
        _ => StoreFailure::Other,
    }
}

/// `sqlx::error::DatabaseError::kind` of the database error that
/// `sqlx::Error::as_database_error` finds; `Unclassified` where the error is
/// not a database error or the driver names no constraint.
#[verifier::external_body]
pub(crate) fn error_violation(error: &sqlx::Error) -> (violation: Violation)
    ensures
        violation == reported_violation(*error),
{
    match error.as_database_error() {
        Some(database) => match database.kind() {
            sqlx::error::ErrorKind::UniqueViolation => Violation::Unique,
            sqlx::error::ErrorKind::ForeignKeyViolation => Violation::ForeignKey,
            sqlx::error::ErrorKind::NotNullViolation => Violation::NotNull,
            sqlx::error::ErrorKind::CheckViolation => Violation::Check,
            _ => Violation::Unclassified,
        },
        None => Violation::Unclassified,
    }
}

/// The failure with its violation filled in, where it is a database error.
pub open spec fn with_violation(failure: StoreFailure, violation: Violation) -> StoreFailure {
    match failure {
        StoreFailure::Database(_) => StoreFailure::Database(violation),
        other => other,
    }
}

/// The kind of error under which a failure falls.
pub open spec fn kind_of(failure: StoreFailure) -> ErrorKind {
    match failure {
        StoreFailure::RowNotFound => ErrorKind::NotFound,
        StoreFailure::Database(Violation::Unique) => ErrorKind::ConstraintViolation,
        StoreFailure::Database(Violation::ForeignKey) => ErrorKind::ConstraintViolation,
        StoreFailure::Database(_) => ErrorKind::QueryError,
        StoreFailure::Io => ErrorKind::ConnectionError,
        StoreFailure::Tls => ErrorKind::ConnectionError,
        StoreFailure::Protocol => ErrorKind::ConnectionError,
        StoreFailure::PoolTimedOut => ErrorKind::ConnectionError,
        StoreFailure::PoolClosed => ErrorKind::ConnectionError,
        StoreFailure::WorkerCrashed => ErrorKind::ConnectionError,
        StoreFailure::Other => ErrorKind::QueryError,
    }
}

/// The kind of error under which a failure falls. A missing row, as after
/// a delete or an update of a key that does not exist, is `NotFound`, never
/// a success; a violated foreign key, as when a row is deleted that others
/// still refer to, or a violated uniqueness constraint is
/// `ConstraintViolation`; a failure of the pool or of the transport is
/// `ConnectionError`; everything else is `QueryError`.
pub fn classify(failure: StoreFailure) -> (kind: ErrorKind)
    ensures
        kind == kind_of(failure),
{
    match failure {
        StoreFailure::RowNotFound => ErrorKind::NotFound,
        StoreFailure::Database(violation) => match violation {
            Violation::Unique => ErrorKind::ConstraintViolation,
            Violation::ForeignKey => ErrorKind::ConstraintViolation,
            _ => ErrorKind::QueryError,
        },
        StoreFailure::Io => ErrorKind::ConnectionError,
        StoreFailure::Tls => ErrorKind::ConnectionError,
        StoreFailure::Protocol => ErrorKind::ConnectionError,
        StoreFailure::PoolTimedOut => ErrorKind::ConnectionError,
        StoreFailure::PoolClosed => ErrorKind::ConnectionError,
        StoreFailure::WorkerCrashed => ErrorKind::ConnectionError,
        StoreFailure::Other => ErrorKind::QueryError,
    }
}

/// Fills the violation into a database failure.
pub fn refine(failure: StoreFailure, violation: Violation) -> (refined: StoreFailure)
    ensures
        refined == with_violation(failure, violation),
{
    match failure {
        StoreFailure::Database(_) => StoreFailure::Database(violation),
        other => other,
    }
}

/// What a driver error reports, in the library's terms.
pub fn describe(error: &sqlx::Error) -> (failure: StoreFailure)
    ensures
        failure == with_violation(reported_failure(*error), reported_violation(*error)),
{
    refine(error_variant(error), error_violation(error))
}

/// The kind of error under which a driver error falls.
pub fn kind_of_error(error: &sqlx::Error) -> (kind: ErrorKind)
    ensures
        kind == kind_of(with_violation(reported_failure(*error), reported_violation(*error))),
{
    classify(describe(error))
}

/// The row that was found, or `NotFound` where none was.
pub open spec fn row_or_not_found<T>(row: Option<T>) -> Result<T, ErrorKind> {
    match row {
        Some(found) => Ok(found),
        None => Err(ErrorKind::NotFound),
    }
}

/// The row of a statement that must find exactly one: a statement that
/// found none has failed with `NotFound`.
pub fn expect_row<T>(row: Option<T>) -> (result: Result<T, ErrorKind>)
    ensures
        result == row_or_not_found(row),
{
    match row {
        Some(found) => Ok(found),
        None => Err(ErrorKind::NotFound),
    }
}

} // verus!
