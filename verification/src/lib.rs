//! The decision logic of a DNS filtering daemon: what to do with a query, a
//! certificate, a configuration or a command, apart from the sockets and files
//! that it concerns.

pub mod acme;
pub mod config;
pub mod control;
pub mod daemon;
pub mod database;
pub mod entities;
pub mod listeners;
pub mod logging;
pub mod metrics;
pub mod net;
pub mod pem;
pub mod plugin_runtime;
pub mod privileges;
pub mod text;
pub mod tls;
pub mod upstream;
