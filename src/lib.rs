//! Liveness and capability probing of relays: the decisions of the probing
//! engine, verified, with the network and the store left to the caller.

pub mod address;
pub mod record;
pub mod scheduler;
pub mod pipeline;
