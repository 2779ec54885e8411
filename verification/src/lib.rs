//! Update and launch orchestration for a desktop application shell.
//!
//! The crate resolves the location of bundled helper scripts according to the
//! build mode, classifies the outcome of running such a script, plans the
//! filesystem operations that enable or disable autostart registration, and
//! drives the state machine of a self-update session. All decisions are made
//! here over plain values; the surrounding process performs the actual
//! filesystem, process and network work and feeds the results back in.

pub mod autostart;
pub mod errors;
pub mod facade;
pub mod paths;
pub mod runner;
pub mod update;

pub use errors::ErrorView;
pub use errors::OrchestratorError;
pub use paths::BuildMode;
