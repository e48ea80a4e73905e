//! Protocol engine of a live-broadcast chat client.
//!
//! The crate holds the decisions of one chat session as plain functions over
//! plain values: finding the signaling endpoint in a viewer page, the
//! signaling handshake, the cursor-driven polling loop, the length-prefixed
//! frame decoder, per-segment message handling with deduplication, and the
//! start/stop bookkeeping of sessions.  Network transfer and the decoding of
//! frame payloads into schema messages are left to the caller.

pub mod delivery;
pub mod event;
pub mod frame;
pub mod json;
pub mod message;
pub mod page;
pub mod pattern;
pub mod percent;
pub mod segment;
pub mod session;
pub mod signaling;
pub mod text;
