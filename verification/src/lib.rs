//! Decision logic of a small person and user service that sits on an embedded
//! SQL store: the domain records, the error taxonomy, the schema-migration
//! runner, the database handle's startup and statement outcomes, and the
//! credential flow.
//!
//! Everything here is synchronous and free of I/O. The surrounding program
//! leases connections, runs statements on worker threads and renders
//! responses; it hands this library what came back and acts on what the
//! library decides.

pub mod conversions;
pub mod db_handle;
pub mod domain;
pub mod migration;
pub mod password;
pub mod routes;
pub mod status;
