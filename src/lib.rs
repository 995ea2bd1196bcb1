//! Relay for a length-prefixed debugging wire protocol: classification of
//! message headers and the per-direction framing state machine.
pub mod names;
pub mod header;
pub mod relay;
pub mod session;
pub mod dump;
pub mod laws;
