//! The wire schema shared by the host agent and the agent gateway: the message
//! types, the length-prefix framing, and the canonical wire vectors.
pub mod codec;
pub mod golden;
pub mod receive;
pub mod v1;
