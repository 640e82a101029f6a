//! What the listeners decide: which addresses they take, whom they let in and
//! what they answer.

pub mod admin;
pub mod auth;
pub mod bind;
pub mod dns;
pub mod doh;
pub mod doq;
pub mod dot;
pub mod handler;
pub mod http;
pub mod mcp;
pub mod metrics;
pub mod operations;
