//! Certificates from an ACME authority: when to ask for one, how the exchange
//! with the authority goes, and when a certificate ends.

pub mod account;
pub mod calendar;
pub mod cert_resolver;
pub mod cloudflare;
pub mod der;
pub mod duration;
pub mod error;
pub mod flow;
pub mod renewal;
