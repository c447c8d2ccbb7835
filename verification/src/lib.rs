//! Configuration resolution and persistence for a command-line snippet
//! manager.
//!
//! The crate decides where the active configuration file lives (an
//! environment-variable override takes precedence over the platform-standard
//! location), generates the canonical default configuration text, and drives
//! the load/store lifecycle — including the directory provisioning that must
//! succeed before a loaded record is handed to the caller. The file reads,
//! writes and environment lookups themselves stay with the caller: the
//! library is handed their outcomes as plain values and decides every step.

pub mod configuration;
pub mod errors;
pub mod laws;
pub mod lifecycle;
