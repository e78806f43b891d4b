//! The ways in which decoding, encoding, framing and dispatch fail.

use vstd::prelude::*;

verus! {

/// Why a value could not be read from bytes.
#[derive(Debug, Clone, Copy, PartialEq, Eq, Hash, Structural)]
pub enum DecodeError {
    /// The bytes end before the value does.
    UnexpectedEof,
    /// A variable-length integer goes on past its fifth byte.
    VarIntTooLong,
    /// A length prefix is below zero.
    NegativeLength,
    /// The bytes of a string are not UTF-8.
    InvalidUtf8,
}

/// Why a value could not be written as bytes.
#[derive(Debug, Clone, Copy, PartialEq, Eq, Hash, Structural)]
pub enum EncodeError {
    /// A string has more bytes than its length prefix can state.
    TooLong,
    /// A counted array states a length that its elements do not have.
    LengthMismatch,
}

/// Why the front of a receive buffer is not a frame.
#[derive(Debug, Clone, Copy, PartialEq, Eq, Hash, Structural)]
pub enum FrameError {
    /// The length prefix is not a variable-length integer.
    LengthMalformed,
    /// The stated length is zero or less, so that not even an id fits.
    LengthNotPositive,
    /// The stated length is above the largest that a frame may have.
    TooLarge,
    /// No packet id starts the frame and ends inside it.
    IdMalformed,
}

/// Why a connection has to be closed.
#[derive(Debug, Clone, Copy, PartialEq, Eq, Hash, Structural)]
pub enum ProtocolError {
    /// The body of a packet is not what its id announces.
    Decode(DecodeError),
    /// An answer has no wire form.
    Encode(EncodeError),
    /// The front of the receive buffer is no frame, or an answer fits none.
    Frame(FrameError),
    /// A handshake asks for a state that is neither status nor login.
    IllegalNextState(i32),
    /// The peer has closed the stream, or reading from it failed.
    Transport,
}

} // verus!
