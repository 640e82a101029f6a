//! Upstream servers: how their addresses are written, how they are reached and what
//! their answers mean.

pub mod bootstrap;
pub mod dns;
pub mod doh;
pub mod doq;
pub mod dot;
pub mod endpoint;
pub mod error;
pub mod exchange;
pub mod message;
pub mod recursive;
pub mod runtime;
