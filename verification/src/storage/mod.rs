//! What is kept: pastes, events and surveys in memory, and the meaning of
//! the durable ban records.

pub mod ban;
pub mod memory;
