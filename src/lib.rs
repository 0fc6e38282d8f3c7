//! Coordination of per-architecture build jobs: the job registry, the
//! control-plane decisions, command-argument parsing and the worker's
//! retry and reporting rules.
pub mod job;
pub mod registry;
pub mod text;
pub mod control;
pub mod protocol;
pub mod parse;
pub mod commands;
pub mod retry;
pub mod worker;
pub mod laws;
