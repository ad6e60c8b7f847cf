//! A verified model of an editor's remote-servers workflow: registering
//! SSH-reachable hosts, driving a cancellable connection attempt, keeping the
//! established sessions for the life of the process, and persisting the
//! host/project pairs a user picks.
//!
//! The library is pure: it decides, and its callers perform. Everything that
//! touches a terminal, a network or a settings file lives outside and talks to
//! this crate through plain values.

pub mod connection;
pub mod registry;
pub mod selections;
pub mod strs;
pub mod workflow;
