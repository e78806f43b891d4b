//! The states of a connection.

use vstd::prelude::*;

verus! {

/// Where a connection stands. It starts in `Handshaking`; `Closed` is the
/// end, and nothing leads out of it.
#[derive(Debug, Clone, Copy, PartialEq, Eq, Structural)]
pub enum State {
    Handshaking,
    Status,
    Login,
    Play,
    Closed,
}

impl Default for State {
    fn default() -> (state: State)
        ensures
            state == State::Handshaking,
    {
        State::Handshaking
    }
}

} // verus!
