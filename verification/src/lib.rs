//! Blocks a set of domains by appending loopback entries to the host file,
//! and restores the file from the copy taken before.

pub mod command;
pub mod config;
pub mod engine;
pub mod error;
pub mod files;
pub mod hosts;
pub mod laws;
pub mod text;
