//! Synchronization engine for a fixed set of text notes kept both on local
//! disk and in a remote WebDAV folder.
//!
//! The crate holds the decisions of the engine: how a remote address is
//! built, how a modification time is read out of a server's answer, what is
//! done with a note given the two modification times, how the statuses of a
//! pass are gathered, and when the background scheduler starts a pass.
//! Performing the transfers themselves is left to the caller: every step
//! that touches the network, the disk or the clock is named by the library
//! and carried out by whoever drives it.

pub mod backup;
pub mod bulk;
pub mod client;
pub mod commands;
pub mod credentials;
pub mod error;
pub mod http;
pub mod language;
pub mod logging;
pub mod orchestrator;
pub mod reconcile;
pub mod run;
pub mod scheduler;
pub mod text;
pub mod timestamp;
pub mod types;
