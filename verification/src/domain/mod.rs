//! The domain model: identifiers, jobs, attempts, nodes, leases and usage, and
//! the pure rules over them (lifecycle, fencing, scheduling). Nothing here reads
//! a clock or touches a socket: whatever needs "now" takes it as an argument.
pub mod attempt;
pub mod capability;
pub mod fencing;
pub mod ids;
pub mod job;
pub mod lease;
pub mod node;
pub mod scheduler;
pub mod time;
pub mod usage;
