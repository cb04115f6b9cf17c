//! Port-to-process resolution and graceful process termination.
//!
//! The library answers "which processes are bound to port P?" by joining the
//! kernel's socket tables with per-process descriptor tables, and terminates
//! processes under a configurable policy: a polite terminate signal first,
//! then an unconditional kill once a timeout has passed.

pub mod cli;
pub mod commands;
pub mod config;
pub mod errors;
pub mod killer;
pub mod output;
pub mod platform;
pub mod process;
pub mod scanner;
pub mod theme;
