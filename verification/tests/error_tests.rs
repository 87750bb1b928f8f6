use backend::errors::classify;
use backend::errors::describe;
use backend::errors::expect_row;
use backend::errors::kind_of_error;
use backend::errors::refine;
use backend::errors::ErrorKind;
use backend::errors::StoreFailure;
use backend::errors::Violation;
use std::borrow::Cow;
use std::error::Error as StdError;
use std::fmt;

/// A rejection by the store, as a driver reports it.
#[derive(Debug)]
struct Rejection {
    kind: u8,
}

impl fmt::Display for Rejection {
    fn fmt(&self, f: &mut fmt::Formatter<'_>) -> fmt::Result {
        f.write_str("rejected")
    }
}

impl StdError for Rejection {}

impl sqlx::error::DatabaseError for Rejection {
    fn message(&self) -> &str {
        "rejected"
    }

    fn code(&self) -> Option<Cow<'_, str>> {
        None
    }

    fn as_error(&self) -> &(dyn StdError + Send + Sync + 'static) {
        self
    }

    fn as_error_mut(&mut self) -> &mut (dyn StdError + Send + Sync + 'static) {
        self
    }

    fn into_error(self: Box<Self>) -> Box<dyn StdError + Send + Sync + 'static> {
        self
    }

    fn kind(&self) -> sqlx::error::ErrorKind {
        match self.kind {
            0 => sqlx::error::ErrorKind::UniqueViolation,
            1 => sqlx::error::ErrorKind::ForeignKeyViolation,
            2 => sqlx::error::ErrorKind::NotNullViolation,
            3 => sqlx::error::ErrorKind::CheckViolation,
            _ => sqlx::error::ErrorKind::Other,
        }
    }
}

fn rejection(kind: u8) -> sqlx::Error {
    sqlx::Error::Database(Box::new(Rejection { kind }))
}

#[test]
fn a_missing_row_is_not_found() {
    assert_eq!(classify(StoreFailure::RowNotFound), ErrorKind::NotFound);
    assert_eq!(kind_of_error(&sqlx::Error::RowNotFound), ErrorKind::NotFound);
    assert_eq!(describe(&sqlx::Error::RowNotFound), StoreFailure::RowNotFound);
}

#[test]
fn a_violated_foreign_key_is_a_constraint_violation() {
    assert_eq!(
        classify(StoreFailure::Database(Violation::ForeignKey)),
        ErrorKind::ConstraintViolation
    );
    assert_eq!(describe(&rejection(1)), StoreFailure::Database(Violation::ForeignKey));
    assert_eq!(kind_of_error(&rejection(1)), ErrorKind::ConstraintViolation);
}

#[test]
fn a_violated_uniqueness_constraint_is_a_constraint_violation() {
    assert_eq!(
        classify(StoreFailure::Database(Violation::Unique)),
        ErrorKind::ConstraintViolation
    );
    assert_eq!(describe(&rejection(0)), StoreFailure::Database(Violation::Unique));
    assert_eq!(kind_of_error(&rejection(0)), ErrorKind::ConstraintViolation);
}

#[test]
fn other_rejections_are_query_errors() {
    assert_eq!(classify(StoreFailure::Database(Violation::NotNull)), ErrorKind::QueryError);
    assert_eq!(classify(StoreFailure::Database(Violation::Check)), ErrorKind::QueryError);
    assert_eq!(classify(StoreFailure::Database(Violation::Unclassified)), ErrorKind::QueryError);
    assert_eq!(classify(StoreFailure::Other), ErrorKind::QueryError);
    assert_eq!(describe(&rejection(2)), StoreFailure::Database(Violation::NotNull));
    assert_eq!(describe(&rejection(3)), StoreFailure::Database(Violation::Check));
    assert_eq!(describe(&rejection(4)), StoreFailure::Database(Violation::Unclassified));
    assert_eq!(kind_of_error(&rejection(2)), ErrorKind::QueryError);
    assert_eq!(kind_of_error(&rejection(4)), ErrorKind::QueryError);
    assert_eq!(
        kind_of_error(&sqlx::Error::ColumnNotFound("code".to_string())),
        ErrorKind::QueryError
    );
    assert_eq!(
        describe(&sqlx::Error::InvalidArgument("no such argument".to_string())),
        StoreFailure::Other
    );
}

#[test]
fn failures_of_pool_and_transport_are_connection_errors() {
    assert_eq!(classify(StoreFailure::Io), ErrorKind::ConnectionError);
    assert_eq!(classify(StoreFailure::Tls), ErrorKind::ConnectionError);
    assert_eq!(classify(StoreFailure::Protocol), ErrorKind::ConnectionError);
    assert_eq!(classify(StoreFailure::PoolTimedOut), ErrorKind::ConnectionError);
    assert_eq!(classify(StoreFailure::PoolClosed), ErrorKind::ConnectionError);
    assert_eq!(classify(StoreFailure::WorkerCrashed), ErrorKind::ConnectionError);
    assert_eq!(describe(&sqlx::Error::PoolTimedOut), StoreFailure::PoolTimedOut);
    assert_eq!(describe(&sqlx::Error::PoolClosed), StoreFailure::PoolClosed);
    assert_eq!(describe(&sqlx::Error::WorkerCrashed), StoreFailure::WorkerCrashed);
    assert_eq!(
        describe(&sqlx::Error::Protocol("unexpected message".to_string())),
        StoreFailure::Protocol
    );
    let io = sqlx::Error::Io(std::io::Error::new(std::io::ErrorKind::BrokenPipe, "gone"));
    assert_eq!(describe(&io), StoreFailure::Io);
    assert_eq!(kind_of_error(&io), ErrorKind::ConnectionError);
    assert_eq!(kind_of_error(&sqlx::Error::PoolTimedOut), ErrorKind::ConnectionError);
}

#[test]
fn refine_fills_the_violation_into_database_failures_only() {
    assert_eq!(
        refine(StoreFailure::Database(Violation::Unclassified), Violation::ForeignKey),
        StoreFailure::Database(Violation::ForeignKey)
    );
    assert_eq!(refine(StoreFailure::Io, Violation::ForeignKey), StoreFailure::Io);
    assert_eq!(refine(StoreFailure::RowNotFound, Violation::Unique), StoreFailure::RowNotFound);
}

#[test]
fn expect_row_turns_absence_into_not_found() {
    assert_eq!(expect_row(Some(5)), Ok(5));
    assert_eq!(expect_row::<i32>(None), Err(ErrorKind::NotFound));
}
