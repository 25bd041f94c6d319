//! The rules of a router for chat completions.
//!
//! - [`chat`]: what a chat completion request asks for, how its controls are
//!   normalized and checked, and how responses look on the wire.
//! - [`replica`]: how a router keeps up with the active requests of its peers.
//! - [`engine`]: how one request goes through a routed engine.
//! - [`json`]: JSON documents.
//!
//! The crate decides and computes. Locks, transports, tasks and clocks are the
//! host's: where a decision needs one, a function says what the host does next,
//! and the host hands back what came of it.

pub mod chat;
pub mod engine;
pub mod json;
pub mod replica;
