//! Upgrade phases of a swarm builder: turning user-supplied constructors, or
//! pairs of them, into security and stream-multiplexer upgrades.

pub mod select;
pub mod upgrade;
pub mod laws;
