//! Packets: records whose fields travel one after another, in the order in
//! which they are declared.

use crate::encoding::Encodable;
use vstd::prelude::*;

pub mod clientbound;
pub mod serverbound;
pub mod test;

verus! {

/// Which way a packet travels.
pub enum PacketDirection {
    Clientbound,
    Serverbound,
}

/// A record that travels as the body of a frame.
pub trait Packet: Encodable {}

} // verus!
