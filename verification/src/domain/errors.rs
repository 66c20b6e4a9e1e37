//! The error taxonomy: what each layer below can report, as plain data, and
//! the closed set of errors that requests and startup can end in.

use vstd::prelude::*;
use crate::migration::runner::{SetupFailure, SetupStep};
use crate::status::{BAD_REQUEST, INTERNAL_SERVER_ERROR};

verus! {

/// Why the pool could not supply a connection.
#[derive(Clone, Copy, Debug, PartialEq, Eq, Structural)]
pub enum PoolFailureKind {
    /// No connection became free, or could be opened or recycled, in time.
    Timeout,
    /// The store refused to open a connection.
    Backend,
    /// The pool has been closed.
    Closed,
    /// The pool was built without a runtime to wait on.
    NoRuntimeSpecified,
    /// A hook that runs on fresh connections failed.
    PostCreateHook,
}

/// A failed attempt to lease a connection.
#[derive(Debug)]
pub struct PoolFailure {
    pub kind: PoolFailureKind,
    /// The pool's own description, for logs.
    pub detail: String,
}

/// Why a worker did not hand a result back.
#[derive(Clone, Copy, Debug, PartialEq, Eq, Structural)]
pub enum InteractFailure {
    /// The work panicked.
    Panic,
    /// The work was aborted before it finished.
    Aborted,
}

/// What the logic distinguishes among the driver's errors.
#[derive(Clone, Copy, Debug, PartialEq, Eq, Structural)]
pub enum DriverFailureKind {
    /// A query that expects a row matched none.
    QueryReturnedNoRows,
    /// The statement broke a constraint of the schema, such as uniqueness.
    ConstraintViolation,
    /// Anything else: syntax, type mismatch, I/O.
    Other,
}

/// A statement that the embedded engine rejected.
#[derive(Debug)]
pub struct DriverFailure {
    pub kind: DriverFailureKind,
    /// The driver's own description, for logs.
    pub detail: String,
}

/// A hashing or verification primitive that errored. A password that does
/// not match is not such an error.
#[derive(Debug)]
pub struct HashFailure {
    /// The primitive's own description, for logs.
    pub detail: String,
}

/// Why a blocking task could not be joined.
#[derive(Clone, Copy, Debug, PartialEq, Eq, Structural)]
pub enum JoinFailure {
    /// The task was cancelled.
    Cancelled,
    /// The task panicked.
    Panicked,
}

/// Every way a request can fail.
#[allow(inconsistent_fields)]
#[derive(Debug)]
pub enum InnerError {
    DatabasePoolError { source: PoolFailure },
    DatabaseConnectionError { source: DriverFailure },
    DatabaseInteractError { source: InteractFailure },
    PasswordHashingError { error_source: HashFailure },
    JoinError { source: JoinFailure },
    InvalidUsernameOrPassword,
}

impl InnerError {
    /// The text that describes the error to an operator. It names the kind of
    /// failure and nothing of its cause.
    pub open spec fn message_text(&self) -> Seq<char> {
        match self {
            InnerError::DatabasePoolError { .. } => {
                "Failed to get a connection from the connection pool"@
            },
            InnerError::DatabaseConnectionError { .. } => {
                "Failed while connecting to/running queries on the database"@
            },
            InnerError::DatabaseInteractError { .. } => "Failed while running interact"@,
            InnerError::PasswordHashingError { .. } => "PasswordHashingError"@,
            InnerError::JoinError { .. } => "Failed to join a thread/task with the current one"@,
            InnerError::InvalidUsernameOrPassword => "InvalidUsernameOrPassword"@,
        }
    }

    pub fn message(&self) -> (r: String)
        ensures
            r@ == self.message_text(),
    {
        match self {
            InnerError::DatabasePoolError { .. } => {
                String::from("Failed to get a connection from the connection pool")
            },
            InnerError::DatabaseConnectionError { .. } => {
                String::from("Failed while connecting to/running queries on the database")
            },
            InnerError::DatabaseInteractError { .. } => String::from("Failed while running interact"),
            InnerError::PasswordHashingError { .. } => String::from("PasswordHashingError"),
            InnerError::JoinError { .. } => {
                String::from("Failed to join a thread/task with the current one")
            },
            InnerError::InvalidUsernameOrPassword => String::from("InvalidUsernameOrPassword"),
        }
    }

    /// Whether the client, not the server, is at fault.
    pub open spec fn is_client_fault(&self) -> bool {
        self is InvalidUsernameOrPassword
    }
}

/// The one opaque error that reaches the route boundary. Its reply carries a
/// status and no body, so nothing of the cause leaks to the client.
#[derive(Debug)]
pub struct ServerError(pub InnerError);

impl ServerError {
    /// Rejected credentials are the client's fault and say so; every other
    /// error is a generic server failure.
    pub open spec fn status(&self) -> u16 {
        if self.0.is_client_fault() {
            BAD_REQUEST
        } else {
            INTERNAL_SERVER_ERROR
        }
    }

    pub fn status_code(&self) -> (r: u16)
        ensures
            r == self.status(),
    {
        match &self.0 {
            InnerError::InvalidUsernameOrPassword => BAD_REQUEST,
            _ => INTERNAL_SERVER_ERROR,
        }
    }
}

/// Every way startup can fail. Each is fatal: the service must not begin to
/// serve.
#[allow(inconsistent_fields)]
#[derive(Debug)]
pub enum StartupError {
    /// The pool could not be built, for instance from an invalid path.
    PoolCreation { detail: String },
    /// The pool did not supply the connection that startup runs on.
    MigrationConnection { source: PoolFailure },
    /// The worker that ran the startup sequence did not hand a result back.
    Interact { source: InteractFailure },
    /// The store refused the journal mode.
    JournalMode { source: DriverFailure },
    /// Reading the schema version failed (`version` is `None`), or the script
    /// of that version did.
    Migration { version: Option<u32>, source: DriverFailure },
    /// The startup sequence was left before it ended.
    Incomplete,
}

impl StartupError {
    /// The startup error that a failed step of the runner amounts to.
    pub open spec fn of_failure(failure: SetupFailure) -> StartupError {
        match failure.step {
            SetupStep::JournalMode => StartupError::JournalMode { source: failure.source },
            SetupStep::ReadVersion => StartupError::Migration {
                version: None,
                source: failure.source,
            },
            SetupStep::Apply { version } => StartupError::Migration {
                version: Some(version),
                source: failure.source,
            },
        }
    }

    pub fn from_failure(failure: SetupFailure) -> (r: Self)
        ensures
            r == Self::of_failure(failure),
    {
        match failure.step {
            SetupStep::JournalMode => StartupError::JournalMode { source: failure.source },
            SetupStep::ReadVersion => StartupError::Migration {
                version: None,
                source: failure.source,
            },
            SetupStep::Apply { version } => StartupError::Migration {
                version: Some(version),
                source: failure.source,
            },
        }
    }

    /// The text that describes the error to an operator.
    pub open spec fn message_text(&self) -> Seq<char> {
        match self {
            StartupError::PoolCreation { .. } => "Failed to create Database Connection Pool"@,
            StartupError::MigrationConnection { .. } => {
                "Encountered error getting the migration connection from the pool"@
            },
            StartupError::Interact { .. } => "Encountered error when running `interact`"@,
            StartupError::JournalMode { .. } => "Failed to set pragma journal_mode=WAL"@,
            StartupError::Migration { .. } => "Failed to run database migrations"@,
            StartupError::Incomplete => "Database setup did not run to its end"@,
        }
    }

    pub fn message(&self) -> (r: String)
        ensures
            r@ == self.message_text(),
    {
        match self {
            StartupError::PoolCreation { .. } => {
                String::from("Failed to create Database Connection Pool")
            },
            StartupError::MigrationConnection { .. } => {
                String::from("Encountered error getting the migration connection from the pool")
            },
            StartupError::Interact { .. } => {
                String::from("Encountered error when running `interact`")
            },
            StartupError::JournalMode { .. } => String::from("Failed to set pragma journal_mode=WAL"),
            StartupError::Migration { .. } => String::from("Failed to run database migrations"),
            StartupError::Incomplete => String::from("Database setup did not run to its end"),
        }
    }
}

} // verus!
