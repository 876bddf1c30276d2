//! Application services and the ports they use.
pub mod cancel;
pub mod clock;
pub mod doctor;
pub mod history;
pub mod list;
pub mod reconcile;
pub mod service;
pub mod submit;
