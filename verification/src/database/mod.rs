//! What the database holds, and how its rows are put together.

pub mod records;
pub mod sqlite;
pub mod statements;
