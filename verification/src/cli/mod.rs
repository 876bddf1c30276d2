//! Command-line rules.
pub mod args;
pub mod cancel;
pub mod doctor;
pub mod environment;
pub mod error;
pub mod exit;
pub mod human;
pub mod manage;
pub mod schedule;
pub mod submit;
pub mod view;
