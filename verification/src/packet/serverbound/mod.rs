//! Packets that travel from a client to the server.

pub mod handshake;
pub mod handshaking;
pub mod login;
pub mod play;
pub mod status;
