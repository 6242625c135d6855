//! A real-time connection hub: a registry of live sessions grouped into rooms,
//! the routing of room broadcasts and whispers between them, and the
//! per-connection session state machine with its heartbeat.

pub mod ids;
pub mod wire;
pub mod hub;
pub mod lobby;
pub mod heartbeat;
pub mod session;
pub mod probe;
pub mod laws;
pub mod payload;
