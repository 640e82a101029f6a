//! The program: its commands, and how it starts and ends.

pub mod cli;
pub mod serving;
pub mod startup;
