//! Rules of the operating-system and persistence adapters.
pub mod config;
pub mod paths;
pub mod process;
pub mod runtime;
pub mod service;
pub mod spawn;
pub mod sqlite;
pub mod time;
