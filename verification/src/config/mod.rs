//! The configuration: its shape, its defaults and how two of them are merged.

pub mod loader;
pub mod merger;
pub mod schema;
pub mod yaml;
