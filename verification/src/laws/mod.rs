//! What holds of the library's operations as a whole.
pub mod calendar;
pub mod cancellation;
pub mod clocks;
pub mod command;
pub mod command_line;
pub mod config;
pub mod diagnosis;
pub mod display;
pub mod duration;
pub mod environment;
pub mod failures;
pub mod job_commands;
pub mod lifecycle;
pub mod management;
pub mod output;
pub mod paths;
pub mod processes;
pub mod recovery;
pub mod restart;
pub mod retention;
pub mod scheduling;
pub mod service;
pub mod storage;
pub mod submission;
pub mod values;
