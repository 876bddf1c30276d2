//! `SQLite` job-store adapter.
pub mod connection;
pub mod database;
pub mod job_row;
pub mod job_store;
pub mod management;
pub mod names;
pub mod output_store;
pub mod reconcile;
pub mod retention;
pub mod run_row;
pub mod run_store;
pub mod statements;
pub mod tables;
pub mod transaction;
