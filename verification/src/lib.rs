//! A small library for delegating host power and session actions to the
//! system-management binaries, built around a verified process runner: it
//! validates that a command's executable resolves on the search path,
//! normalizes the raw result of running it into captured output bytes or a
//! typed error, and renders each error as text.

pub mod cli;
pub mod process;

pub use process::Error;
pub use process::Process;
