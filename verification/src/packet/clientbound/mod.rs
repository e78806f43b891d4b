//! Packets that travel from the server to a client.

pub mod login;
pub mod play;
pub mod status;
