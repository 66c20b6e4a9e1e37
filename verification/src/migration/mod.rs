//! Schema migrations: the ordered set of scripts, and the runner that
//! decides, step by step, what the startup sequence does to the store.

pub mod laws;
pub mod runner;
pub mod schema;
pub mod set;

pub use runner::{
    pending, target_version, versions, MigrationAction, MigrationEvent, MigrationRunner, RunnerView,
    SetupFailure,
    SetupStep, Stage, JOURNAL_MODE,
};
pub use schema::schema;
pub use set::{ascending, distinct_versions, MigrationScript, MigrationSet, MigrationSetError};
