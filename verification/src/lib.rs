//! Per-workspace sandboxed execution environments for an interactive coding
//! agent, and the completion-notification daemon that containers report back
//! to.
//!
//! The library holds the decisions: deterministic container and volume
//! identities, the merged runtime documents, the exact runtime command
//! sequences that seed, launch, clean and probe, the daemon's PID-file state
//! machine, the notification backend choice and its quoting, the credential
//! filter, and the version comparison. Process spawning, files and the
//! network live outside it and hand in plain observations.

pub mod briefing;
pub mod cli;
pub mod config;
pub mod container;
pub mod credentials;
pub mod daemon;
pub mod identity;
pub mod image;
pub mod notify;
pub mod settings;
pub mod strutil;
pub mod update;
