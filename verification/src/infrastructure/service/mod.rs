//! Durable service adapters.
pub mod machine;
pub mod macos;
pub mod native;
pub mod systemd;
