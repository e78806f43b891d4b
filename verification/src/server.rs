//! The server's settings and what it tells about itself.

use crate::chat::ChatComponent;
use crate::connection::step;
use crate::connection::Action;
use crate::connection::Connection;
use crate::connection::PacketContainer;
use crate::connection::Reply;
use crate::error::ProtocolError;
use crate::frame::lemma_frame_extends;
use crate::frame::next_frame;
use crate::frame::parse_frame;
use crate::frame::FrameParse;
use crate::state::State;
use crate::varint::lemma_varint_parse_bounds;
use crate::varint::VarInt;
use crate::varint::MAX_VARINT_BYTES;
use crate::json::decimal_text;
use crate::json::json_string;
use crate::json::push_decimal;
use crate::json::quote;
use vstd::prelude::*;
use vstd::string::StringExecFns;

verus! {

/// The name of the game version that the server speaks.
pub const VERSION_NAME: &'static str = "1.8.9";

/// The number of the protocol that the server speaks.
pub const PROTOCOL_VERSION: i32 = 47;

/// What a server is set up with.
pub struct ServerConfiguration<'a> {
    /// The address to listen on.
    pub host: &'a str,
    /// The port to listen on.
    pub port: u16,
    /// How many players may be in the game at once.
    pub max_players: i32,
    /// The message that the server list shows.
    pub motd: ChatComponent<'a>,
}

/// A configuration in the making. `M` is what stands for the message so
/// far: `()` before it is given, a `ChatComponent` once it is. Only with a
/// message can the configuration be built.
pub struct ServerConfigurationBuilder<'a, M> {
    pub host: &'a str,
    pub port: u16,
    pub max_players: i32,
    pub motd: M,
}

impl<'a> ServerConfiguration<'a> {
    /// A builder that listens on every address at port 25565 and lets 20
    /// players in.
    pub fn builder() -> (b: ServerConfigurationBuilder<'a, ()>)
        ensures
            b.host@ == "0.0.0.0"@,
            b.port == 25565,
            b.max_players == 20,
    {
        ServerConfigurationBuilder { host: "0.0.0.0", port: 25565, max_players: 20, motd: () }
    }
}

impl<'a, M> ServerConfigurationBuilder<'a, M> {
    pub fn host(self, host: &'a str) -> (b: Self)
        ensures
            b == (ServerConfigurationBuilder { host, ..self }),
    {
        ServerConfigurationBuilder { host, ..self }
    }

    pub fn port(self, port: u16) -> (b: Self)
        ensures
            b == (ServerConfigurationBuilder { port, ..self }),
    {
        ServerConfigurationBuilder { port, ..self }
    }

    pub fn max_players(self, max_players: i32) -> (b: Self)
        ensures
            b == (ServerConfigurationBuilder { max_players, ..self }),
    {
        ServerConfigurationBuilder { max_players, ..self }
    }
}

impl<'a> ServerConfigurationBuilder<'a, ()> {
    /// Gives the configuration its message.
    pub fn motd(self, motd: ChatComponent<'a>) -> (b: ServerConfigurationBuilder<
        'a,
        ChatComponent<'a>,
    >)
        ensures
            b.host == self.host,
            b.port == self.port,
            b.max_players == self.max_players,
            b.motd == motd,
    {
        ServerConfigurationBuilder {
            host: self.host,
            port: self.port,
            max_players: self.max_players,
            motd,
        }
    }
}

impl<'a> ServerConfigurationBuilder<'a, ChatComponent<'a>> {
    /// The configuration with what was set.
    pub fn build(self) -> (c: ServerConfiguration<'a>)
        ensures
            c.host == self.host,
            c.port == self.port,
            c.max_players == self.max_players,
            c.motd == self.motd,
    {
        ServerConfiguration {
            host: self.host,
            port: self.port,
            max_players: self.max_players,
            motd: self.motd,
        }
    }
}

/// The status document: the version's name and protocol number, how many
/// players fit and how many are there, and the description. `name` and
/// `description` are JSON strings already.
pub open spec fn status_text(
    name: Seq<char>,
    protocol: int,
    max: int,
    online: int,
    description: Seq<char>,
) -> Seq<char> {
    "{\"version\":{\"name\":"@ + name + ",\"protocol\":"@ + decimal_text(protocol)
        + "},\"players\":{\"max\":"@ + decimal_text(max) + ",\"online\":"@ + decimal_text(online)
        + "},\"description\":{\"text\":"@ + description + "}}"@
}

/// Puts the status document together from its parts, of which `name` and
/// `description` are JSON strings already.
pub fn status_document(name: &str, protocol: i32, max: i32, online: i32, description: &str) -> (out:
    String)
    ensures
        out@ == status_text(name@, protocol as int, max as int, online as int, description@),
{
    let mut out = String::from_str("{\"version\":{\"name\":");
    out.append(name);
    out.append(",\"protocol\":");
    push_decimal(&mut out, protocol);
    out.append("},\"players\":{\"max\":");
    push_decimal(&mut out, max);
    out.append(",\"online\":");
    push_decimal(&mut out, online);
    out.append("},\"description\":{\"text\":");
    out.append(description);
    out.append("}}");
    out
}

impl<'a> ServerConfiguration<'a> {
    /// The status document of a server with these settings and `online`
    /// players in the game. There is one whenever the JSON writer gives the
    /// text of the version's name and of the message as JSON strings, and
    /// none when it refuses one of them.
    pub fn status(&self, online: i32) -> (r: Option<String>)
        ensures
            match (json_string(VERSION_NAME@), json_string(self.motd.text@)) {
                (Some(name), Some(description)) => r matches Some(out) && out@ == status_text(
                    name,
                    PROTOCOL_VERSION as int,
                    self.max_players as int,
                    online as int,
                    description,
                ),
                _ => r is None,
            },
    {
        let name = match quote(VERSION_NAME) {
            Ok(name) => name,
            Err(_) => {
                return None;
            },
        };
        let description = match quote(self.motd.text.as_str()) {
            Ok(description) => description,
            Err(_) => {
                return None;
            },
        };
        Some(
            status_document(
                name.as_str(),
                PROTOCOL_VERSION,
                self.max_players,
                online,
                description.as_str(),
            ),
        )
    }
}

/// What came of the bytes that a connection had received.
pub struct Outcome {
    /// What is to be written to the peer: the answers, frame after frame.
    pub output: Vec<u8>,
    /// The packets of the game, in the order in which they came.
    pub dispatched: Vec<PacketContainer>,
    /// The packets whose id meant nothing in the state they came in.
    pub unknown: Vec<PacketContainer>,
    /// Why the connection was closed, if it was.
    pub error: Option<ProtocolError>,
}

/// How far a connection has come with the bytes it had received.
pub struct Progress {
    /// The state that the connection is in.
    pub state: State,
    /// The bytes that no frame has been cut from.
    pub rest: Seq<u8>,
    /// The answers so far, frame after frame.
    pub output: Seq<u8>,
    /// The packets of the game so far.
    pub dispatched: Seq<(VarInt, VarInt, Seq<u8>)>,
    /// The packets so far whose id meant nothing.
    pub unknown: Seq<(VarInt, VarInt, Seq<u8>)>,
    /// Why the connection was closed, if it was.
    pub error: Option<ProtocolError>,
}

/// The views of `packets`, in their order.
pub open spec fn views(packets: Seq<PacketContainer>) -> Seq<(VarInt, VarInt, Seq<u8>)> {
    Seq::new(packets.len(), |i: int| packets[i]@)
}

/// Cuts frame after frame from `so_far.rest` and lets each act on the
/// connection, until no whole frame is left, the connection is closed, or
/// something is refused. Nothing is cut from the bytes of a closed
/// connection. What is refused closes the connection, and the bytes behind it
/// stay where they are.
pub open spec fn run(so_far: Progress, status: Seq<char>) -> Progress
    decreases so_far.rest.len(),
{
    if so_far.state == State::Closed {
        so_far
    } else {
        match parse_frame(so_far.rest) {
            FrameParse::Incomplete => so_far,
            FrameParse::Invalid(e) => Progress {
                state: State::Closed,
                error: Some(ProtocolError::Frame(e)),
                ..so_far
            },
            FrameParse::Complete { id, length, data, next } => {
                proof {
                    lemma_varint_parse_bounds(so_far.rest, 0, MAX_VARINT_BYTES as nat);
                }
                let packet = (id, length, data);
                let (state, outcome) = step(so_far.state, id, data, status);
                let cut = Progress { state, rest: so_far.rest.skip(next), ..so_far };
                match outcome {
                    Err(e) => Progress { error: Some(e), ..cut },
                    Ok(Reply::Nothing) => run(cut, status),
                    Ok(Reply::Send(frame)) => run(
                        Progress { output: cut.output + frame, ..cut },
                        status,
                    ),
                    Ok(Reply::Dispatch) => run(
                        Progress { dispatched: cut.dispatched.push(packet), ..cut },
                        status,
                    ),
                    Ok(Reply::Unknown) => run(
                        Progress { unknown: cut.unknown.push(packet), ..cut },
                        status,
                    ),
                }
            },
        }
    }
}

/// Whatever is refused closes the connection: when working through the
/// bytes ends with an error, it ends in `Closed`. And a connection that is
/// closed stays so.
pub proof fn lemma_run_error_closes(so_far: Progress, status: Seq<char>)
    requires
        so_far.error is None,
    ensures
        run(so_far, status).error is Some ==> run(so_far, status).state == State::Closed,
        so_far.state == State::Closed ==> run(so_far, status) == so_far,
    decreases so_far.rest.len(),
{
    if so_far.state != State::Closed {
        match parse_frame(so_far.rest) {
            FrameParse::Complete { id, length, data, next } => {
                lemma_varint_parse_bounds(so_far.rest, 0, MAX_VARINT_BYTES as nat);
                let packet = (id, length, data);
                let (state, outcome) = step(so_far.state, id, data, status);
                let cut = Progress { state, rest: so_far.rest.skip(next), ..so_far };
                match outcome {
                    Err(e) => {},
                    Ok(Reply::Nothing) => lemma_run_error_closes(cut, status),
                    Ok(Reply::Send(frame)) => lemma_run_error_closes(
                        Progress { output: cut.output + frame, ..cut },
                        status,
                    ),
                    Ok(Reply::Dispatch) => lemma_run_error_closes(
                        Progress { dispatched: cut.dispatched.push(packet), ..cut },
                        status,
                    ),
                    Ok(Reply::Unknown) => lemma_run_error_closes(
                        Progress { unknown: cut.unknown.push(packet), ..cut },
                        status,
                    ),
                }
            },
            _ => {},
        }
    }
}

/// `so_far` after `more` bytes have arrived.
pub open spec fn received(so_far: Progress, more: Seq<u8>) -> Progress {
    Progress { rest: so_far.rest + more, ..so_far }
}

/// It makes no difference in how many pieces the bytes arrive: to work
/// through what is there, and through the rest when it has come, leads to
/// where working through all of it at once leads.
pub proof fn lemma_run_in_pieces(so_far: Progress, more: Seq<u8>, status: Seq<char>)
    requires
        so_far.error is None,
    ensures
        run(received(run(so_far, status), more), status) == run(received(so_far, more), status),
    decreases so_far.rest.len(),
{
    let whole = received(so_far, more);
    if so_far.state != State::Closed {
        match parse_frame(so_far.rest) {
            FrameParse::Incomplete => {},
            FrameParse::Invalid(e) => {
                lemma_frame_extends(so_far.rest, more);
            },
            FrameParse::Complete { id, length, data, next } => {
                lemma_frame_extends(so_far.rest, more);
                lemma_varint_parse_bounds(so_far.rest, 0, MAX_VARINT_BYTES as nat);
                assert(whole.rest.skip(next) =~= so_far.rest.skip(next) + more);
                let packet = (id, length, data);
                let (state, outcome) = step(so_far.state, id, data, status);
                let cut = Progress { state, rest: so_far.rest.skip(next), ..so_far };
                match outcome {
                    Err(e) => {},
                    Ok(Reply::Nothing) => lemma_run_in_pieces(cut, more, status),
                    Ok(Reply::Send(frame)) => lemma_run_in_pieces(
                        Progress { output: cut.output + frame, ..cut },
                        more,
                        status,
                    ),
                    Ok(Reply::Dispatch) => lemma_run_in_pieces(
                        Progress { dispatched: cut.dispatched.push(packet), ..cut },
                        more,
                        status,
                    ),
                    Ok(Reply::Unknown) => lemma_run_in_pieces(
                        Progress { unknown: cut.unknown.push(packet), ..cut },
                        more,
                        status,
                    ),
                }
            },
        }
    }
}

impl Outcome {
    /// Where a connection stands that has come to this outcome.
    pub open spec fn progress(&self, connection: Connection) -> Progress {
        Progress {
            state: connection.state,
            rest: connection.buf@,
            output: self.output@,
            dispatched: views(self.dispatched@),
            unknown: views(self.unknown@),
            error: self.error,
        }
    }
}

/// Works through what `connection` has received: cuts the whole frames from
/// its buffer, lets each packet act on its state, and gathers what is to be
/// written, what belongs to the game and what was not understood. `status`
/// is the document that answers a status request.
pub fn handle_connection(connection: &mut Connection, status: &str) -> (outcome: Outcome)
    ensures
        outcome.progress(*final(connection)) == run(
            Progress {
                state: old(connection).state,
                rest: old(connection).buf@,
                output: Seq::empty(),
                dispatched: Seq::empty(),
                unknown: Seq::empty(),
                error: None,
            },
            status@,
        ),
{
    let mut outcome = Outcome {
        output: Vec::new(),
        dispatched: Vec::new(),
        unknown: Vec::new(),
        error: None,
    };
    assert(views(outcome.dispatched@) =~= Seq::empty());
    assert(views(outcome.unknown@) =~= Seq::empty());
    loop
        invariant
            outcome.error is None,
            run(outcome.progress(*connection), status@) == run(
                Progress {
                    state: old(connection).state,
                    rest: old(connection).buf@,
                    output: Seq::empty(),
                    dispatched: Seq::empty(),
                    unknown: Seq::empty(),
                    error: None,
                },
                status@,
            ),
        decreases connection.buf@.len(),
    {
        if connection.state == State::Closed {
            return outcome;
        }
        let ghost before = outcome.progress(*connection);
        proof {
            lemma_varint_parse_bounds(connection.buf@, 0, MAX_VARINT_BYTES as nat);
        }
        let packet = match next_frame(&mut connection.buf) {
            Ok(Some(packet)) => packet,
            Ok(None) => {
                return outcome;
            },
            Err(e) => {
                connection.state = State::Closed;
                outcome.error = Some(ProtocolError::Frame(e));
                return outcome;
            },
        };
        match connection.handle_packet(&packet, status) {
            Err(e) => {
                outcome.error = Some(e);
                return outcome;
            },
            Ok(Action::Nothing) => {},
            Ok(Action::Send(mut frame)) => {
                outcome.output.append(&mut frame);
            },
            Ok(Action::Dispatch) => {
                let ghost earlier = views(outcome.dispatched@);
                outcome.dispatched.push(packet);
                assert(views(outcome.dispatched@) =~= earlier.push(packet@));
            },
            Ok(Action::Unknown) => {
                let ghost earlier = views(outcome.unknown@);
                outcome.unknown.push(packet);
                assert(views(outcome.unknown@) =~= earlier.push(packet@));
            },
        }
    }
}

} // verus!
