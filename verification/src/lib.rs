//! Verified core of a chat-driven playlist synchronizer.
//!
//! The library extracts track identifiers from free-form message text,
//! derives a stable per-chat owner key, computes which identifiers are
//! missing from a playlist snapshot, and drives the synchronization as a
//! state machine whose catalog calls are performed by the surrounding
//! (unverified) transport layer.

pub mod delta;
pub mod extract;
pub mod model;
pub mod owner;
pub mod resolve;
pub mod snapshot;
pub mod sync;
