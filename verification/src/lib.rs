//! Incremental search session manager.
//!
//! This library drives a bounded, multi-step tree search for an autonomous
//! agent without ever blocking the interactive thread. It owns the protocol
//! for starting, stepping and abandoning a search session, the rule that
//! merges successive engine outcomes into a monotonically improving best
//! answer, and the pure decision functions a host coordinator uses to react
//! to progress messages.
//!
//! The search engine itself, the game rules and the transport between the
//! interactive context and the worker context are external collaborators:
//! the worker loop performs the engine call and hands its outcome back to
//! the verified state machine in this crate.

pub mod config;
pub mod coordinator;
pub mod outcome;
pub mod player;
pub mod search;
