//! The agent gateway: the session terminator's decisions, the bridge of decoded
//! agent events onto the bus, enrollment, and the security bootstrap behind it.
pub mod bootstrap;
pub mod bridge;
pub mod clock;
pub mod enroll;
pub mod event;
pub mod quic;
pub mod session;
pub mod terminator;
pub mod testing;
pub mod wss;
