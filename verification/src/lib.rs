//! The scheduling rules of ATX, which runs commands later without keeping a terminal open.
pub mod application;
pub mod cli;
pub mod domain;
pub mod infrastructure;
pub mod laws;
pub mod outside;
pub mod path_text;
pub mod text;
