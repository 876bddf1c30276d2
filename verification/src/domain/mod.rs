//! Platform-independent scheduling domain.
pub mod calendar;
pub mod calendar_syntax;
pub mod civil;
pub mod duration;
pub mod environment;
pub mod error;
pub mod execution;
pub mod execution_error;
pub mod id;
pub mod job;
pub mod primitives;
pub mod recurrence;
pub mod run;
pub mod schedule;
pub mod state;
pub mod transition;
