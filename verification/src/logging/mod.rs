//! Where messages go, and which of them.

pub mod setup;
pub mod syslog;
