//! The streaming activity protocol.

pub mod handshake;
pub mod payloads;
pub mod session;
