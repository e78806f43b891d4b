//! Wire protocol of a block-game server: the codecs of its values, the
//! framing of its packets and the states a connection moves through.

pub mod array;
pub mod buffer;
pub mod chat;
pub mod connection;
pub mod encoding;
pub mod error;
pub mod frame;
pub mod json;
pub mod packet;
pub mod position;
pub mod server;
pub mod state;
pub mod varint;
