//! Driver layer for satellite subsystems that speak a length-framed binary
//! protocol over a serial bus: bit-exact command serialization, a telemetry
//! cache, bounded delivery queues, and the controller logic that routes
//! incoming frames and aggregates command outcomes.

pub mod encode;
pub mod hex;
pub mod messages;
pub mod model;
pub mod queue;
pub mod telemetry;
pub mod text;
