//! Session-management core for a deterministic-rollback multiplayer
//! simulation.
//!
//! The crate has two components:
//!
//! - [`frame`]: the frame tracker, a rollback-aware counter that advances
//!   exactly once at the end of each deterministic simulation tick and
//!   participates in the rollback substrate's snapshot/restore protocol.
//! - [`session`]: the session configurator, which turns a session-start
//!   request into a running session handle, branching on whether networked
//!   match metadata is present.

pub mod frame;
pub mod session;
