//! Loom: the pure decision logic of a self-hosted compute control plane.

pub mod agentproto;
pub mod bus;
pub mod decimal;
pub mod domain;
pub mod duration;
pub mod enrollment;
pub mod hexadecimal;
pub mod hostd;
pub mod number;
pub mod proto;
pub mod random;
pub mod store;
pub mod text;
pub mod wall_clock;
