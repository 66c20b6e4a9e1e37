use testcontainers_test::db_handle::{optional, DbHandle, ExecuteResult, Executed, Offload};
use testcontainers_test::domain::errors::{
    DriverFailure, DriverFailureKind, InnerError, InteractFailure, PoolFailure, PoolFailureKind,
    StartupError,
};
use testcontainers_test::migration::{schema, MigrationEvent, MigrationRunner};

fn driver(kind: DriverFailureKind, detail: &str) -> DriverFailure {
    DriverFailure { kind, detail: String::from(detail) }
}

fn timeout() -> PoolFailure {
    PoolFailure {
        kind: PoolFailureKind::Timeout,
        detail: String::from("Timeout occurred while waiting for a slot to become available"),
    }
}

fn finished_runner() -> MigrationRunner {
    MigrationRunner::new(schema())
        .record(MigrationEvent::JournalModeSet)
        .record(MigrationEvent::VersionRead(None))
        .record(MigrationEvent::Applied)
        .record(MigrationEvent::Applied)
}

fn handle() -> DbHandle {
    DbHandle::setup(Offload::Completed(finished_runner())).unwrap()
}

#[test]
fn a_finished_startup_gives_a_handle() {
    assert_eq!(handle().schema_version(), 2);
}

#[test]
fn a_failed_lease_gives_no_handle() {
    let result = DbHandle::setup(Offload::LeaseFailed(timeout()));
    match result {
        Err(StartupError::MigrationConnection { source }) => {
            assert_eq!(source.kind, PoolFailureKind::Timeout)
        }
        other => panic!("unexpected result: {:?}", other),
    }
}

#[test]
fn a_failed_worker_gives_no_handle() {
    let result = DbHandle::setup(Offload::WorkerFailed(InteractFailure::Panic));
    assert!(matches!(result, Err(StartupError::Interact { source: InteractFailure::Panic })));
}

#[test]
fn a_failed_migration_gives_no_handle() {
    let runner = MigrationRunner::new(schema())
        .record(MigrationEvent::JournalModeSet)
        .record(MigrationEvent::VersionRead(None))
        .record(MigrationEvent::Applied)
        .record(MigrationEvent::Failed(driver(DriverFailureKind::Other, "near \"TABEL\"")));
    match DbHandle::setup(Offload::Completed(runner)) {
        Err(StartupError::Migration { version, source }) => {
            assert_eq!(version, Some(2));
            assert_eq!(source.detail, "near \"TABEL\"");
        }
        other => panic!("unexpected result: {:?}", other),
    }
}

#[test]
fn a_refused_journal_mode_gives_no_handle() {
    let runner = MigrationRunner::new(schema())
        .record(MigrationEvent::Failed(driver(DriverFailureKind::Other, "read-only")));
    let result = DbHandle::setup(Offload::Completed(runner));
    assert!(matches!(result, Err(StartupError::JournalMode { .. })));
}

#[test]
fn a_startup_left_halfway_gives_no_handle() {
    let fresh = MigrationRunner::new(schema());
    assert!(matches!(DbHandle::setup(Offload::Completed(fresh)), Err(StartupError::Incomplete)));
    let halfway = MigrationRunner::new(schema())
        .record(MigrationEvent::JournalModeSet)
        .record(MigrationEvent::VersionRead(None))
        .record(MigrationEvent::Applied);
    assert!(matches!(DbHandle::setup(Offload::Completed(halfway)), Err(StartupError::Incomplete)));
}

#[test]
fn a_pool_that_cannot_be_built_is_its_own_error() {
    match DbHandle::pool_creation_failed(String::from("invalid path")) {
        StartupError::PoolCreation { detail } => assert_eq!(detail, "invalid path"),
        other => panic!("unexpected error: {:?}", other),
    }
}

#[test]
fn optional_turns_no_rows_into_none() {
    assert_eq!(optional(Ok::<i64, DriverFailure>(5)).unwrap(), Some(5));
    let none = optional::<i64>(Err(driver(DriverFailureKind::QueryReturnedNoRows, "no rows")));
    assert_eq!(none.unwrap(), None);
    let kept = optional::<i64>(Err(driver(DriverFailureKind::Other, "locked")));
    assert_eq!(kept.unwrap_err().detail, "locked");
    let kept = optional::<i64>(Err(driver(DriverFailureKind::ConstraintViolation, "unique")));
    assert_eq!(kept.unwrap_err().kind, DriverFailureKind::ConstraintViolation);
}

#[test]
fn a_row_is_returned() {
    let reply = handle().query_row(Offload::Completed(Ok(String::from("Josh"))));
    assert_eq!(reply.unwrap(), Some(String::from("Josh")));
}

#[test]
fn no_row_is_none_and_no_error() {
    let outcome: Offload<Result<String, DriverFailure>> = Offload::Completed(Err(driver(
        DriverFailureKind::QueryReturnedNoRows,
        "Query returned no rows",
    )));
    assert_eq!(handle().query_row(outcome).unwrap(), None);
}

#[test]
fn a_query_fails_with_the_error_of_its_layer() {
    let handle = handle();
    let lease: Offload<Result<i64, DriverFailure>> = Offload::LeaseFailed(timeout());
    assert!(matches!(handle.query_row(lease), Err(InnerError::DatabasePoolError { .. })));
    let worker: Offload<Result<i64, DriverFailure>> = Offload::WorkerFailed(InteractFailure::Aborted);
    assert!(matches!(
        handle.query_row(worker),
        Err(InnerError::DatabaseInteractError { source: InteractFailure::Aborted })
    ));
    let statement: Offload<Result<i64, DriverFailure>> =
        Offload::Completed(Err(driver(DriverFailureKind::Other, "no such table: person")));
    match handle.query_row(statement) {
        Err(InnerError::DatabaseConnectionError { source }) => {
            assert_eq!(source.detail, "no such table: person")
        }
        other => panic!("unexpected reply: {:?}", other),
    }
}

#[test]
fn execute_returns_the_last_insert_rowid() {
    let executed = Executed { rows_affected: 1, last_insert_rowid: 42 };
    let reply = handle().execute(Offload::Completed(Ok(executed)));
    assert_eq!(reply.unwrap(), ExecuteResult { last_insert_rowid: 42 });
}

#[test]
fn a_statement_that_changes_no_row_succeeds() {
    let executed = Executed { rows_affected: 0, last_insert_rowid: 7 };
    let reply = handle().execute(Offload::Completed(Ok(executed)));
    assert_eq!(reply.unwrap(), ExecuteResult { last_insert_rowid: 7 });
}

#[test]
fn execute_fails_with_the_error_of_its_layer() {
    let handle = handle();
    assert!(matches!(
        handle.execute(Offload::LeaseFailed(timeout())),
        Err(InnerError::DatabasePoolError { .. })
    ));
    assert!(matches!(
        handle.execute(Offload::WorkerFailed(InteractFailure::Panic)),
        Err(InnerError::DatabaseInteractError { source: InteractFailure::Panic })
    ));
    let refused = Offload::Completed(Err(driver(DriverFailureKind::ConstraintViolation, "UNIQUE")));
    match handle.execute(refused) {
        Err(InnerError::DatabaseConnectionError { source }) => {
            assert_eq!(source.kind, DriverFailureKind::ConstraintViolation)
        }
        other => panic!("unexpected reply: {:?}", other),
    }
    let no_rows = Offload::Completed(Err(driver(DriverFailureKind::QueryReturnedNoRows, "none")));
    assert!(matches!(handle.execute(no_rows), Err(InnerError::DatabaseConnectionError { .. })));
}
