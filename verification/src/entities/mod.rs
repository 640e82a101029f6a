//! What the rest of the system speaks of: logged queries, verdicts and strategies.

pub mod plugin;
pub mod query_log;
pub mod resolution;
