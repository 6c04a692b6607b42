//! Bootstrap logic for a plugin-based application shell.
//!
//! The library decides what the bootstrap does: which plugins are attached,
//! in which order, at which logging threshold, and how a failed start of the
//! host event loop becomes a fatal diagnostic. The host loop itself is run
//! by an unverified caller, which hands its outcome back to the library.

pub mod bootstrap;
pub mod level;
pub mod plugin;
pub mod shell;
