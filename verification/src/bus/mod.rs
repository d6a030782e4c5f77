//! The event bus: dot-delimited topics, messages, the in-process fan-out, and
//! the relay that drains outbox rows onto the bus.
//!
//! Bus events are delivery hints; the store is the authority. A row is published
//! and then marked sent, so a crash between the two redelivers it, and every
//! delivery of a row carries the same dedup key.
pub mod channel;
pub mod inproc;
pub mod message;
pub mod relay;
pub mod testing;
pub mod topic;
