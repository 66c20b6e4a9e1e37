//! The database handle: what startup and each statement end in, given what
//! the pool, the worker and the driver reported.
//!
//! The caller leases a connection, runs the statement on a worker and hands
//! the layered outcome over; the handle maps it into the error taxonomy.

use vstd::prelude::*;
use crate::domain::errors::{
    DriverFailure, DriverFailureKind, InnerError, InteractFailure, PoolFailure, StartupError,
};
use crate::migration::runner::{pending, MigrationRunner, Stage};

verus! {

/// How far a piece of work got that needs a leased connection and a worker.
#[derive(Debug)]
pub enum Offload<T> {
    /// The pool did not supply a connection.
    LeaseFailed(PoolFailure),
    /// The worker did not hand a result back.
    WorkerFailed(InteractFailure),
    /// The work ran to its end and returned this.
    Completed(T),
}

/// What the driver reports of a statement that ran.
#[derive(Clone, Copy, Debug, PartialEq, Eq, Structural)]
pub struct Executed {
    /// How many rows the statement changed. Zero is a success, too.
    pub rows_affected: usize,
    /// The identity of the row inserted last on the connection.
    pub last_insert_rowid: i64,
}

/// The result of `DbHandle::execute`.
#[derive(Clone, Copy, Debug, PartialEq, Eq, Structural)]
pub struct ExecuteResult {
    /// The identity of the last insert performed. It means something after
    /// an insert and is to be ignored otherwise.
    pub last_insert_rowid: i64,
}

/// A query that expects one row and finds none has found nothing; that is
/// no error. Every other result is kept.
pub open spec fn optional_row<R>(row: Result<R, DriverFailure>) -> Result<Option<R>, DriverFailure> {
    match row {
        Ok(found) => Ok(Some(found)),
        Err(failure) => if failure.kind == DriverFailureKind::QueryReturnedNoRows {
            Ok(None)
        } else {
            Err(failure)
        },
    }
}

pub fn optional<R>(row: Result<R, DriverFailure>) -> (r: Result<Option<R>, DriverFailure>)
    ensures
        r == optional_row(row),
{
    match row {
        Ok(found) => Ok(Some(found)),
        Err(failure) => match failure.kind {
            DriverFailureKind::QueryReturnedNoRows => Ok(None),
            _ => Err(failure),
        },
    }
}

/// The error that each layer's failure becomes; the driver's own result
/// where every layer did its part.
pub open spec fn statement_reply<T>(outcome: Offload<Result<T, DriverFailure>>) -> Result<
    T,
    InnerError,
> {
    match outcome {
        Offload::LeaseFailed(source) => Err(InnerError::DatabasePoolError { source }),
        Offload::WorkerFailed(source) => Err(InnerError::DatabaseInteractError { source }),
        Offload::Completed(Err(source)) => Err(InnerError::DatabaseConnectionError { source }),
        Offload::Completed(Ok(value)) => Ok(value),
    }
}

/// What `DbHandle::query_row` returns for each outcome.
pub open spec fn query_row_reply<R>(outcome: Offload<Result<R, DriverFailure>>) -> Result<
    Option<R>,
    InnerError,
> {
    match outcome {
        Offload::LeaseFailed(source) => Err(InnerError::DatabasePoolError { source }),
        Offload::WorkerFailed(source) => Err(InnerError::DatabaseInteractError { source }),
        Offload::Completed(row) => match optional_row(row) {
            Ok(found) => Ok(found),
            Err(source) => Err(InnerError::DatabaseConnectionError { source }),
        },
    }
}

/// What `DbHandle::execute` returns for each outcome.
pub open spec fn execute_reply(outcome: Offload<Result<Executed, DriverFailure>>) -> Result<
    ExecuteResult,
    InnerError,
> {
    match statement_reply(outcome) {
        Ok(executed) => Ok(ExecuteResult { last_insert_rowid: executed.last_insert_rowid }),
        Err(error) => Err(error),
    }
}

/// What `DbHandle::setup` returns for each outcome of the startup sequence.
pub open spec fn setup_reply(outcome: Offload<MigrationRunner>) -> Result<u32, StartupError> {
    match outcome {
        Offload::LeaseFailed(source) => Err(StartupError::MigrationConnection { source }),
        Offload::WorkerFailed(source) => Err(StartupError::Interact { source }),
        Offload::Completed(runner) => match runner@.stage {
            Stage::Finished => Ok(runner@.version),
            Stage::Failed => Err(StartupError::of_failure(runner@.failure->0)),
            _ => Err(StartupError::Incomplete),
        },
    }
}

/// A handle to a store whose schema is current. There is no other way to
/// come by one than a startup sequence that finished, so no statement runs
/// through a handle before the migrations are done.
#[derive(Clone, Copy, Debug)]
pub struct DbHandle {
    schema_version: u32,
}

impl View for DbHandle {
    type V = u32;

    closed spec fn view(&self) -> u32 {
        self.schema_version
    }
}

impl DbHandle {
    /// The error of a pool that could not be built.
    pub fn pool_creation_failed(detail: String) -> (r: StartupError)
        ensures
            r == (StartupError::PoolCreation { detail }),
    {
        StartupError::PoolCreation { detail }
    }

    /// Ends startup. The handle exists if and only if the connection was
    /// leased, the worker returned, and the runner finished; no script of
    /// the set is then later than the version the handle stands at.
    pub fn setup(outcome: Offload<MigrationRunner>) -> (r: Result<Self, StartupError>)
        ensures
            match setup_reply(outcome) {
                Ok(version) => r matches Ok(handle) && handle@ == version,
                Err(error) => r == Err::<Self, StartupError>(error),
            },
            r matches Ok(handle) ==> outcome matches Offload::Completed(runner) && pending(
                runner@.scripts,
                handle@,
            ).len() == 0,
    {
        match outcome {
            Offload::LeaseFailed(source) => Err(StartupError::MigrationConnection { source }),
            Offload::WorkerFailed(source) => Err(StartupError::Interact { source }),
            Offload::Completed(runner) => {
                if runner.is_finished() {
                    Ok(Self { schema_version: runner.version() })
                } else {
                    match runner.into_failure() {
                        Some(failure) => Err(StartupError::from_failure(failure)),
                        None => Err(StartupError::Incomplete),
                    }
                }
            },
        }
    }

    /// The schema version that startup left the store at.
    pub fn schema_version(&self) -> (r: u32)
        ensures
            r == self@,
    {
        self.schema_version
    }

    /// The reply to a query for a single row: the row if there is one,
    /// `None` if there is none, and the error of the layer that failed.
    pub fn query_row<R>(&self, outcome: Offload<Result<R, DriverFailure>>) -> (r: Result<
        Option<R>,
        InnerError,
    >)
        ensures
            r == query_row_reply(outcome),
    {
        match outcome {
            Offload::LeaseFailed(source) => Err(InnerError::DatabasePoolError { source }),
            Offload::WorkerFailed(source) => Err(InnerError::DatabaseInteractError { source }),
            Offload::Completed(row) => match optional(row) {
                Ok(found) => Ok(found),
                Err(source) => Err(InnerError::DatabaseConnectionError { source }),
            },
        }
    }

    /// The reply to a statement that changes the store: the identity of the
    /// last inserted row, however many rows changed, and the error of the
    /// layer that failed.
    pub fn execute(&self, outcome: Offload<Result<Executed, DriverFailure>>) -> (r: Result<
        ExecuteResult,
        InnerError,
    >)
        ensures
            r == execute_reply(outcome),
    {
        match outcome {
            Offload::LeaseFailed(source) => Err(InnerError::DatabasePoolError { source }),
            Offload::WorkerFailed(source) => Err(InnerError::DatabaseInteractError { source }),
            Offload::Completed(Err(source)) => Err(InnerError::DatabaseConnectionError { source }),
            Offload::Completed(Ok(executed)) => Ok(
                ExecuteResult { last_insert_rowid: executed.last_insert_rowid },
            ),
        }
    }
}

/// A query that matches no row is answered with `None`, never with an
/// error, whatever the driver says beside.
pub proof fn lemma_no_row_is_none<R>(detail: String)
    ensures
        query_row_reply::<R>(
            Offload::Completed(
                Err(DriverFailure { kind: DriverFailureKind::QueryReturnedNoRows, detail }),
            ),
        ) == Ok::<Option<R>, InnerError>(None),
{
}

/// A query answers with an error only where a layer failed: the pool, the
/// worker, or the driver with something other than "no rows".
pub proof fn lemma_query_errors<R>(outcome: Offload<Result<R, DriverFailure>>)
    ensures
        query_row_reply(outcome) is Err <==> (outcome is LeaseFailed || outcome is WorkerFailed || (
        outcome matches Offload::Completed(Err(failure)) && failure.kind
            != DriverFailureKind::QueryReturnedNoRows)),
{
}

/// A statement that changed no row succeeded all the same.
pub proof fn lemma_zero_rows_is_success(last_insert_rowid: i64)
    ensures
        execute_reply(Offload::Completed(Ok(Executed { rows_affected: 0, last_insert_rowid })))
            == Ok::<ExecuteResult, InnerError>(ExecuteResult { last_insert_rowid }),
{
}

/// No handle without a finished startup: setup yields a handle exactly
/// where the connection was leased, the worker returned, and the runner
/// had applied every pending script without a failure.
pub proof fn lemma_handle_needs_finished_startup(outcome: Offload<MigrationRunner>)
    ensures
        setup_reply(outcome) is Ok <==> (outcome matches Offload::Completed(runner)
            && runner@.stage == Stage::Finished),
        setup_reply(outcome) matches Ok(version) ==> outcome matches Offload::Completed(runner)
            && runner@.version == version,
{
}

} // verus!
