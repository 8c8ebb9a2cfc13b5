//! Durable state, package-replacing transactions and rollback for the desktop updater.
//!
//! The crate decides; it reads the clock and performs no other I/O. Callers read files, spawn
//! processes and save the state, and hand the outcome of each of these back.

pub mod clock;
pub mod install_transaction;
pub mod json;
pub mod launch;
pub mod owned_command;
pub mod process;
pub mod rollback;
pub mod state;
pub mod storage;
pub mod text;
