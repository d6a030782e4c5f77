//! The host agent: its configuration, the reconnect backoff, its identity, and the
//! client side of the enrollment handshake.
pub mod clock;
pub mod config;
pub mod connect;
pub mod enroll;
pub mod identity;
pub mod transport;
pub mod wire;
