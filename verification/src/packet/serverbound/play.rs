//! Packets that a client sends while its player is in the game.

use crate::buffer::bytes_of;
use crate::encoding::Encodable;
use crate::encoding::encode_field;
use crate::encoding::join;
use crate::encoding::numbers::Double;
use crate::encoding::numbers::Float;
use crate::error::DecodeError;
use crate::error::EncodeError;
use crate::packet::Packet;
use crate::position::Position;
use crate::varint::VarInt;
use bytes::BytesMut;
use vstd::prelude::*;

verus! {

/// The server will frequently send out a keep-alive, each containing a random ID. The client must
/// respond with the same packet.
pub struct KeepAlivePacket {
    /// The same random ID that was sent by the server.
    pub id: VarInt,
}

impl View for KeepAlivePacket {
    type V = VarInt;

    open spec fn view(&self) -> Self::V {
        self.id@
    }
}

impl Encodable for KeepAlivePacket {
    open spec fn wire(v: Self::V) -> Result<Seq<u8>, EncodeError> {
        VarInt::wire(v)
    }

    open spec fn parse(bytes: Seq<u8>, at: int) -> Result<(Self::V, int), DecodeError> {
        VarInt::parse(bytes, at)
    }

    open spec fn exact(v: Self::V) -> bool {
        VarInt::exact(v)
    }

    proof fn lemma_round_trip(v: Self::V, before: Seq<u8>, after: Seq<u8>) {
        VarInt::lemma_round_trip(v, before, after);
    }

    fn decode_at(bytes: &[u8], at: usize) -> (r: Result<(Self, usize), DecodeError>) {
        let (id, at) = VarInt::decode_at(bytes, at)?;
        Ok((KeepAlivePacket { id }, at))
    }

    fn encode(&self, writer: &mut BytesMut) -> (r: Result<(), EncodeError>) {
        self.id.encode(writer)
    }
}

impl Packet for KeepAlivePacket {}

/// The default server will check the message to see if it begins with a '/'. If it doesn't, the
/// username of the sender is prepended and sent to all other clients (including the first
/// sender). If it does, the server assumes it to be a command and attempts to process it. A
/// message longer than 100 characters will cause the server to kick the client. This change was
/// initially done by allowing the client to not slice the message up to 119 (the previous limit),
/// without changes to the server. For this reason, the vanilla server kept the code to cut
/// messages at 119, but this isn't a protocol limitation and can be ignored.
pub struct ChatMessagePacket {
    /// The client sends the raw input, not [`ChatComponent`]
    pub message: String,
}

impl View for ChatMessagePacket {
    type V = Seq<char>;

    open spec fn view(&self) -> Self::V {
        self.message@
    }
}

impl Encodable for ChatMessagePacket {
    open spec fn wire(v: Self::V) -> Result<Seq<u8>, EncodeError> {
        String::wire(v)
    }

    open spec fn parse(bytes: Seq<u8>, at: int) -> Result<(Self::V, int), DecodeError> {
        String::parse(bytes, at)
    }

    open spec fn exact(v: Self::V) -> bool {
        String::exact(v)
    }

    proof fn lemma_round_trip(v: Self::V, before: Seq<u8>, after: Seq<u8>) {
        String::lemma_round_trip(v, before, after);
    }

    fn decode_at(bytes: &[u8], at: usize) -> (r: Result<(Self, usize), DecodeError>) {
        let (message, at) = String::decode_at(bytes, at)?;
        Ok((ChatMessagePacket { message }, at))
    }

    fn encode(&self, writer: &mut BytesMut) -> (r: Result<(), EncodeError>) {
        self.message.encode(writer)
    }
}

impl Packet for ChatMessagePacket {}

/// This packet is sent from the client to the server when the client attacks or right-clicks
/// another entity (a player, minecart, etc).
///
/// A Notchian server only accepts this packet if the entity being attacked/used is visible without
/// obstruction and within a 4-unit radius of the player's position.
///
/// Note that middle-click in creative mode is interpreted by the client and sent as a Creative
/// Inventory Action packet instead.
pub struct UseEntityPacket {
    pub target: VarInt,

    /// 0: interact,
    /// 1: attack,
    /// 2: interact at
    pub type_: VarInt,
}

impl View for UseEntityPacket {
    type V = (VarInt, VarInt);

    open spec fn view(&self) -> Self::V {
        (self.target@, self.type_@)
    }
}

impl Encodable for UseEntityPacket {
    open spec fn wire(v: Self::V) -> Result<Seq<u8>, EncodeError> {
        join(VarInt::wire(v.0), VarInt::wire(v.1))
    }

    open spec fn parse(bytes: Seq<u8>, at: int) -> Result<(Self::V, int), DecodeError> {
        match VarInt::parse(bytes, at) {
            Err(e) => Err(e),
            Ok((target, at)) => match VarInt::parse(bytes, at) {
                Err(e) => Err(e),
                Ok((type_, at)) => Ok(((target, type_), at)),
            },
        }
    }

    open spec fn exact(v: Self::V) -> bool {
        &&& VarInt::exact(v.0)
        &&& VarInt::exact(v.1)
    }

    proof fn lemma_round_trip(v: Self::V, before: Seq<u8>, after: Seq<u8>) {
        <(VarInt, VarInt)>::lemma_round_trip((v.0, v.1), before, after);
    }

    fn decode_at(bytes: &[u8], at: usize) -> (r: Result<(Self, usize), DecodeError>) {
        let (target, at) = VarInt::decode_at(bytes, at)?;
        let (type_, at) = VarInt::decode_at(bytes, at)?;
        Ok((UseEntityPacket { target, type_ }, at))
    }

    fn encode(&self, writer: &mut BytesMut) -> (r: Result<(), EncodeError>) {
        let start = writer.len();
        encode_field(&self.target, writer, start)?;
        encode_field(&self.type_, writer, start)?;
        Ok(())
    }
}

impl Packet for UseEntityPacket {}

/// This packet as well as Player Position (Play, 0x04, serverbound), Player Look (Play, 0x05,
/// serverbound), and Player Position And Look (Play, 0x06, serverbound) are called the
/// "serverbound movement packets". At least one of them must be sent on each tick to ensure that
/// servers will update things like player health correctly. Vanilla clients will send Player
/// Position once every 20 ticks even for a stationary player, and Player on every other tick.
///
/// This packet is used to indicate whether the player is on ground (walking/swimming), or airborne
/// (jumping/falling).
///
/// When dropping from sufficient height, fall damage is applied when this state goes from false to
/// true. The amount of damage applied is based on the point where it last changed from true to
/// false. Note that there are several movement related packets containing this state.
pub struct PlayerPacket {}

impl View for PlayerPacket {
    type V = ();

    open spec fn view(&self) -> Self::V {
        ()
    }
}

impl Encodable for PlayerPacket {
    open spec fn wire(v: Self::V) -> Result<Seq<u8>, EncodeError> {
        Ok(Seq::empty())
    }

    open spec fn parse(bytes: Seq<u8>, at: int) -> Result<(Self::V, int), DecodeError> {
        Ok(((), at))
    }

    open spec fn exact(v: Self::V) -> bool {
        true
    }

    proof fn lemma_round_trip(v: Self::V, before: Seq<u8>, after: Seq<u8>) {
        assert(before + Seq::<u8>::empty() + after =~= before + after);
    }

    fn decode_at(bytes: &[u8], at: usize) -> (r: Result<(Self, usize), DecodeError>) {
        Ok((PlayerPacket {}, at))
    }

    fn encode(&self, writer: &mut BytesMut) -> (r: Result<(), EncodeError>) {
        assert(bytes_of(*writer) + Seq::<u8>::empty() =~= bytes_of(*writer));
        Ok(())
    }
}

impl Packet for PlayerPacket {}

/// Updates the player's XYZ position on the server.
///
/// If the distance between the last known position of the player on the server and the new
/// position set by this packet is greater than 100 units, this will result in the client being
/// kicked for "You moved too quickly :( (Hacking?)"
///
/// If the distance is greater than 10 units, the server will log the warning message "<name> moved
/// too quickly!", followed by two coordinate triples (maybe movement delta?), but will not kick
/// the client.
///
/// Also if the fixed-point number of X or Z is set greater than 3.2x107 the client will be kicked
/// for "Illegal position".
pub struct PlayerPositionPacket {
    /// Absolute position.
    pub x: Double,

    /// Absolute position.
    pub y: Double,

    /// Absolute position.
    pub z: Double,
}

impl View for PlayerPositionPacket {
    type V = (Double, Double, Double);

    open spec fn view(&self) -> Self::V {
        (self.x@, self.y@, self.z@)
    }
}

impl Encodable for PlayerPositionPacket {
    open spec fn wire(v: Self::V) -> Result<Seq<u8>, EncodeError> {
        join(Double::wire(v.0), join(Double::wire(v.1), Double::wire(v.2)))
    }

    open spec fn parse(bytes: Seq<u8>, at: int) -> Result<(Self::V, int), DecodeError> {
        match Double::parse(bytes, at) {
            Err(e) => Err(e),
            Ok((x, at)) => match Double::parse(bytes, at) {
                Err(e) => Err(e),
                Ok((y, at)) => match Double::parse(bytes, at) {
                    Err(e) => Err(e),
                    Ok((z, at)) => Ok(((x, y, z), at)),
                },
            },
        }
    }

    open spec fn exact(v: Self::V) -> bool {
        &&& Double::exact(v.0)
        &&& Double::exact(v.1)
        &&& Double::exact(v.2)
    }

    proof fn lemma_round_trip(v: Self::V, before: Seq<u8>, after: Seq<u8>) {
        <(Double, (Double, Double))>::lemma_round_trip((v.0, (v.1, v.2)), before, after);
    }

    fn decode_at(bytes: &[u8], at: usize) -> (r: Result<(Self, usize), DecodeError>) {
        let (x, at) = Double::decode_at(bytes, at)?;
        let (y, at) = Double::decode_at(bytes, at)?;
        let (z, at) = Double::decode_at(bytes, at)?;
        Ok((PlayerPositionPacket { x, y, z }, at))
    }

    fn encode(&self, writer: &mut BytesMut) -> (r: Result<(), EncodeError>) {
        let start = writer.len();
        encode_field(&self.x, writer, start)?;
        encode_field(&self.y, writer, start)?;
        encode_field(&self.z, writer, start)?;
        Ok(())
    }
}

impl Packet for PlayerPositionPacket {}

/// Updates the direction the player is looking in.
///
/// Yaw is measured in degrees, and does not follow classical trigonometry rules. The unit circle
/// of yaw on the XZ-plane starts at (0, 1) and turns counterclockwise, with 90 at (-1, 0), 180 at
/// (0,-1) and 270 at (1, 0). Additionally, yaw is not clamped to between 0 and 360 degrees; any
/// number is valid, including negative numbers and numbers greater than 360.
///
/// Pitch is measured in degrees, where 0 is looking straight ahead, -90 is looking straight up,
/// and 90 is looking straight down.
///
/// The yaw and pitch of player (in degrees), standing at point (x0, y0, z0) and looking towards
/// point (x, y, z) one can be calculated with:
///
/// ```text
/// dx = x-x0
/// dy = y-y0
/// dz = z-z0
/// r = sqrt( dx*dx + dy*dy + dz*dz )
/// yaw = -atan2(dx,dz)/PI*180
/// if yaw < 0 then
///     yaw = 360 - yaw
/// pitch = -arcsin(dy/r)/PI*180
/// ```
///
/// You can get a unit vector from a given yaw/pitch via:
/// ```text
/// x = -cos(pitch) * sin(yaw)
/// y = -sin(pitch)
/// z =  cos(pitch) * cos(yaw)
/// ```
pub struct PlayerPositionLook {
    /// Absolute rotation on the X Axis, in degrees
    pub yaw: Float,

    /// Absolute rotation on the Y Axis, in degrees
    pub pitch: Float,
}

impl View for PlayerPositionLook {
    type V = (Float, Float);

    open spec fn view(&self) -> Self::V {
        (self.yaw@, self.pitch@)
    }
}

impl Encodable for PlayerPositionLook {
    open spec fn wire(v: Self::V) -> Result<Seq<u8>, EncodeError> {
        join(Float::wire(v.0), Float::wire(v.1))
    }

    open spec fn parse(bytes: Seq<u8>, at: int) -> Result<(Self::V, int), DecodeError> {
        match Float::parse(bytes, at) {
            Err(e) => Err(e),
            Ok((yaw, at)) => match Float::parse(bytes, at) {
                Err(e) => Err(e),
                Ok((pitch, at)) => Ok(((yaw, pitch), at)),
            },
        }
    }

    open spec fn exact(v: Self::V) -> bool {
        &&& Float::exact(v.0)
        &&& Float::exact(v.1)
    }

    proof fn lemma_round_trip(v: Self::V, before: Seq<u8>, after: Seq<u8>) {
        <(Float, Float)>::lemma_round_trip((v.0, v.1), before, after);
    }

    fn decode_at(bytes: &[u8], at: usize) -> (r: Result<(Self, usize), DecodeError>) {
        let (yaw, at) = Float::decode_at(bytes, at)?;
        let (pitch, at) = Float::decode_at(bytes, at)?;
        Ok((PlayerPositionLook { yaw, pitch }, at))
    }

    fn encode(&self, writer: &mut BytesMut) -> (r: Result<(), EncodeError>) {
        let start = writer.len();
        encode_field(&self.yaw, writer, start)?;
        encode_field(&self.pitch, writer, start)?;
        Ok(())
    }
}

impl Packet for PlayerPositionLook {}

/// A combination of Player Look and Player Position.
pub struct PlayerPositionAndLookPacket {
    /// Absolute position.
    pub x: Double,

    /// Absolute feet position, normally Head Y - 1.62.
    pub y: Double,

    /// Absolute position.
    pub z: Double,

    /// Absolute rotation on the X Axis, in degrees.
    pub yaw: Float,

    /// Absolute rotation on the Y Axis, in degrees.
    pub pitch: Float,
}

impl View for PlayerPositionAndLookPacket {
    type V = (Double, Double, Double, Float, Float);

    open spec fn view(&self) -> Self::V {
        (self.x@, self.y@, self.z@, self.yaw@, self.pitch@)
    }
}

impl Encodable for PlayerPositionAndLookPacket {
    open spec fn wire(v: Self::V) -> Result<Seq<u8>, EncodeError> {
        join(
            Double::wire(v.0),
            join(
                Double::wire(v.1),
                join(Double::wire(v.2), join(Float::wire(v.3), Float::wire(v.4))),
            ),
        )
    }

    open spec fn parse(bytes: Seq<u8>, at: int) -> Result<(Self::V, int), DecodeError> {
        match Double::parse(bytes, at) {
            Err(e) => Err(e),
            Ok((x, at)) => match Double::parse(bytes, at) {
                Err(e) => Err(e),
                Ok((y, at)) => match Double::parse(bytes, at) {
                    Err(e) => Err(e),
                    Ok((z, at)) => match Float::parse(bytes, at) {
                        Err(e) => Err(e),
                        Ok((yaw, at)) => match Float::parse(bytes, at) {
                            Err(e) => Err(e),
                            Ok((pitch, at)) => Ok(((x, y, z, yaw, pitch), at)),
                        },
                    },
                },
            },
        }
    }

    open spec fn exact(v: Self::V) -> bool {
        &&& Double::exact(v.0)
        &&& Double::exact(v.1)
        &&& Double::exact(v.2)
        &&& Float::exact(v.3)
        &&& Float::exact(v.4)
    }

    proof fn lemma_round_trip(v: Self::V, before: Seq<u8>, after: Seq<u8>) {
        <(Double, (Double, (Double, (Float, Float))))>::lemma_round_trip(
            (v.0, (v.1, (v.2, (v.3, v.4)))),
            before,
            after,
        );
    }

    fn decode_at(bytes: &[u8], at: usize) -> (r: Result<(Self, usize), DecodeError>) {
        let (x, at) = Double::decode_at(bytes, at)?;
        let (y, at) = Double::decode_at(bytes, at)?;
        let (z, at) = Double::decode_at(bytes, at)?;
        let (yaw, at) = Float::decode_at(bytes, at)?;
        let (pitch, at) = Float::decode_at(bytes, at)?;
        Ok((PlayerPositionAndLookPacket { x, y, z, yaw, pitch }, at))
    }

    fn encode(&self, writer: &mut BytesMut) -> (r: Result<(), EncodeError>) {
        let start = writer.len();
        encode_field(&self.x, writer, start)?;
        encode_field(&self.y, writer, start)?;
        encode_field(&self.z, writer, start)?;
        encode_field(&self.yaw, writer, start)?;
        encode_field(&self.pitch, writer, start)?;
        Ok(())
    }
}

impl Packet for PlayerPositionAndLookPacket {}

/// Sent when the player mines a block. A Notchian server only accepts digging packets with
/// coordinates within a 6-unit radius of the player's position.
///
/// # Status Table
/// | Meaning                     | Value |
/// |-----------------------------|-------|
/// | Started digging             | 0     |
/// | Cancelled digging           | 1     |
/// | Finished digging            | 2     |
/// | Drop item stack             | 3     |
/// | Drop item                   | 4     |
/// | Shoot arrow / finish eating | 5     |
///
/// Notchian clients send a 0 (started digging) when they start digging and a 2 (finished digging)
/// once they think they are finished. If digging is aborted, the client simply send a 1 (cancel
/// digging).
///
/// Status code 4 (drop item) is a special case. In-game, when you use the Drop Item command
/// (keypress 'q'), a dig packet with a status of 4, and all other values set to 0, is sent from
/// client to server. Status code 3 is similar, but drops the entire stack.
///
/// Status code 5 (shoot arrow / finish eating) is also a special case. The x, y and z fields are
/// all set to 0 like above, with the exception of the face field, which is set to 255.
///
/// The face can be one of six values, representing the face being hit:
/// | Value | Offset |
/// |-------|--------|
/// |   0   |   -Y   |
/// |   1   |   +Y   |
/// |   2   |   -Z   |
/// |   3   |   +Z   |
/// |   4   |   -X   |
/// |   5   |   +X   |
pub struct PlayerDiggingPacket {
    /// The action the player is taking against the block.
    pub status: i8,

    /// Block position.
    pub location: Position,

    /// The face being hit.
    pub face: i8,
}

impl View for PlayerDiggingPacket {
    type V = (i8, Position, i8);

    open spec fn view(&self) -> Self::V {
        (self.status@, self.location@, self.face@)
    }
}

impl Encodable for PlayerDiggingPacket {
    open spec fn wire(v: Self::V) -> Result<Seq<u8>, EncodeError> {
        join(i8::wire(v.0), join(Position::wire(v.1), i8::wire(v.2)))
    }

    open spec fn parse(bytes: Seq<u8>, at: int) -> Result<(Self::V, int), DecodeError> {
        match i8::parse(bytes, at) {
            Err(e) => Err(e),
            Ok((status, at)) => match Position::parse(bytes, at) {
                Err(e) => Err(e),
                Ok((location, at)) => match i8::parse(bytes, at) {
                    Err(e) => Err(e),
                    Ok((face, at)) => Ok(((status, location, face), at)),
                },
            },
        }
    }

    open spec fn exact(v: Self::V) -> bool {
        &&& i8::exact(v.0)
        &&& Position::exact(v.1)
        &&& i8::exact(v.2)
    }

    proof fn lemma_round_trip(v: Self::V, before: Seq<u8>, after: Seq<u8>) {
        <(i8, (Position, i8))>::lemma_round_trip((v.0, (v.1, v.2)), before, after);
    }

    fn decode_at(bytes: &[u8], at: usize) -> (r: Result<(Self, usize), DecodeError>) {
        let (status, at) = i8::decode_at(bytes, at)?;
        let (location, at) = Position::decode_at(bytes, at)?;
        let (face, at) = i8::decode_at(bytes, at)?;
        Ok((PlayerDiggingPacket { status, location, face }, at))
    }

    fn encode(&self, writer: &mut BytesMut) -> (r: Result<(), EncodeError>) {
        let start = writer.len();
        encode_field(&self.status, writer, start)?;
        encode_field(&self.location, writer, start)?;
        encode_field(&self.face, writer, start)?;
        Ok(())
    }
}

impl Packet for PlayerDiggingPacket {}

/// In normal operation (i.e. placing a block), this packet is sent once, with the values set
/// normally.
///
/// This packet has a special case where X, Y, Z, and Face are all -1. (Note that Y is unsigned so
/// set to 255.) This special packet indicates that the currently held item for the player should
/// have its state updated such as eating food, pulling back bows, using buckets, etc.
///
/// In a Notchian Beta client, the block or item ID corresponds to whatever the client is currently
/// holding, and the client sends one of these packets any time a right-click is issued on a
/// surface, so no assumptions can be made about the safety of the ID. However, with the
/// implementation of server-side inventory, a Notchian server seems to ignore the item ID, instead
/// operating on server-side inventory information and holding selection. The client has been
/// observed (1.2.5 and 1.3.2) to send both real item IDs and -1 in a single session.
///
/// Special note on using buckets: When using buckets, the Notchian client might send two packets:
/// first a normal and then a special case. The first normal packet is sent when you're looking at
/// a block (e.g. the water you want to scoop up). This normal packet does not appear to do
/// anything with a Notchian server. The second, special case packet appears to perform the action
/// - based on current position/orientation and with a distance check - it appears that buckets can
/// only be used within a radius of 6 units.
pub struct PlayerBlockPlacementPacket {
    /// Block position.
    pub location: Position,

    /// The face on which the block is placed.
    pub face: i8,

    /// The position of the crosshair on the block.
    pub cursor_position_x: i8,

    pub cursor_position_y: i8,

    pub cursor_position_z: i8,
}

impl View for PlayerBlockPlacementPacket {
    type V = (Position, i8, i8, i8, i8);

    open spec fn view(&self) -> Self::V {
        (
            self.location@,
            self.face@,
            self.cursor_position_x@,
            self.cursor_position_y@,
            self.cursor_position_z@,
        )
    }
}

impl Encodable for PlayerBlockPlacementPacket {
    open spec fn wire(v: Self::V) -> Result<Seq<u8>, EncodeError> {
        join(
            Position::wire(v.0),
            join(i8::wire(v.1), join(i8::wire(v.2), join(i8::wire(v.3), i8::wire(v.4)))),
        )
    }

    open spec fn parse(bytes: Seq<u8>, at: int) -> Result<(Self::V, int), DecodeError> {
        match Position::parse(bytes, at) {
            Err(e) => Err(e),
            Ok((location, at)) => match i8::parse(bytes, at) {
                Err(e) => Err(e),
                Ok((face, at)) => match i8::parse(bytes, at) {
                    Err(e) => Err(e),
                    Ok((cursor_position_x, at)) => match i8::parse(bytes, at) {
                        Err(e) => Err(e),
                        Ok((cursor_position_y, at)) => match i8::parse(bytes, at) {
                            Err(e) => Err(e),
                            Ok((cursor_position_z, at)) => {
                                let whole = (location, face, cursor_position_x, cursor_position_y, cursor_position_z);
                                Ok((whole, at))
                            },
                        },
                    },
                },
            },
        }
    }

    open spec fn exact(v: Self::V) -> bool {
        &&& Position::exact(v.0)
        &&& i8::exact(v.1)
        &&& i8::exact(v.2)
        &&& i8::exact(v.3)
        &&& i8::exact(v.4)
    }

    proof fn lemma_round_trip(v: Self::V, before: Seq<u8>, after: Seq<u8>) {
        <(Position, (i8, (i8, (i8, i8))))>::lemma_round_trip(
            (v.0, (v.1, (v.2, (v.3, v.4)))),
            before,
            after,
        );
    }

    fn decode_at(bytes: &[u8], at: usize) -> (r: Result<(Self, usize), DecodeError>) {
        let (location, at) = Position::decode_at(bytes, at)?;
        let (face, at) = i8::decode_at(bytes, at)?;
        let (cursor_position_x, at) = i8::decode_at(bytes, at)?;
        let (cursor_position_y, at) = i8::decode_at(bytes, at)?;
        let (cursor_position_z, at) = i8::decode_at(bytes, at)?;
        let packet = PlayerBlockPlacementPacket {
            location,
            face,
            cursor_position_x,
            cursor_position_y,
            cursor_position_z,
        };
        Ok((packet, at))
    }

    fn encode(&self, writer: &mut BytesMut) -> (r: Result<(), EncodeError>) {
        let start = writer.len();
        encode_field(&self.location, writer, start)?;
        encode_field(&self.face, writer, start)?;
        encode_field(&self.cursor_position_x, writer, start)?;
        encode_field(&self.cursor_position_y, writer, start)?;
        encode_field(&self.cursor_position_z, writer, start)?;
        Ok(())
    }
}

impl Packet for PlayerBlockPlacementPacket {}

/// Sent when the player changes the slot selection.
pub struct HeldItemChangePacket {
    /// The slot which the player has selected (0-8.)
    pub slot: i16,
}

impl View for HeldItemChangePacket {
    type V = i16;

    open spec fn view(&self) -> Self::V {
        self.slot@
    }
}

impl Encodable for HeldItemChangePacket {
    open spec fn wire(v: Self::V) -> Result<Seq<u8>, EncodeError> {
        i16::wire(v)
    }

    open spec fn parse(bytes: Seq<u8>, at: int) -> Result<(Self::V, int), DecodeError> {
        i16::parse(bytes, at)
    }

    open spec fn exact(v: Self::V) -> bool {
        i16::exact(v)
    }

    proof fn lemma_round_trip(v: Self::V, before: Seq<u8>, after: Seq<u8>) {
        i16::lemma_round_trip(v, before, after);
    }

    fn decode_at(bytes: &[u8], at: usize) -> (r: Result<(Self, usize), DecodeError>) {
        let (slot, at) = i16::decode_at(bytes, at)?;
        Ok((HeldItemChangePacket { slot }, at))
    }

    fn encode(&self, writer: &mut BytesMut) -> (r: Result<(), EncodeError>) {
        self.slot.encode(writer)
    }
}

impl Packet for HeldItemChangePacket {}

/// Sent when the player's arm swings.
pub struct AnimationPacket {}

impl View for AnimationPacket {
    type V = ();

    open spec fn view(&self) -> Self::V {
        ()
    }
}

impl Encodable for AnimationPacket {
    open spec fn wire(v: Self::V) -> Result<Seq<u8>, EncodeError> {
        Ok(Seq::empty())
    }

    open spec fn parse(bytes: Seq<u8>, at: int) -> Result<(Self::V, int), DecodeError> {
        Ok(((), at))
    }

    open spec fn exact(v: Self::V) -> bool {
        true
    }

    proof fn lemma_round_trip(v: Self::V, before: Seq<u8>, after: Seq<u8>) {
        assert(before + Seq::<u8>::empty() + after =~= before + after);
    }

    fn decode_at(bytes: &[u8], at: usize) -> (r: Result<(Self, usize), DecodeError>) {
        Ok((AnimationPacket {}, at))
    }

    fn encode(&self, writer: &mut BytesMut) -> (r: Result<(), EncodeError>) {
        assert(bytes_of(*writer) + Seq::<u8>::empty() =~= bytes_of(*writer));
        Ok(())
    }
}

impl Packet for AnimationPacket {}

/// Sent by the client to indicate that it has performed certain actions: sneaking (crouching),
/// sprinting, exiting a bed, jumping with a horse, and opening a horse's inventory while riding
/// it.
///
/// # Action ID Table
/// | ID | Action                      |
/// |----|-----------------------------|
/// | 0  | Start sneaking              |
/// | 1  | Stop sneaking               |
/// | 2  | Leave bed                   |
/// | 3  | Start sprinting             |
/// | 4  | Stop sprinting              |
/// | 5  | Jump with horse             |
/// | 6  | Open ridden horse inventory |
///
/// Leave Bed is only sent when the "Leave Bed" button is clicked on the sleep GUI, not when waking
/// up due today time.
///
/// Open ridden horse inventory is only sent when pressing the inventory key on a horse - all other
/// methods of opening a horse's inventory (involving right-clicking or shift-right-clicking it) do
/// not use this packet.
pub struct EntityActionPacket {
    /// Player ID.
    pub entity_id: VarInt,

    /// The ID of the action.
    pub action_id: VarInt,

    /// Only used by Horse Jump Boost, in which case it ranges from 0 to 100. In all other cases it
    /// is 0.
    pub action_parameter: VarInt,
}

impl View for EntityActionPacket {
    type V = (VarInt, VarInt, VarInt);

    open spec fn view(&self) -> Self::V {
        (self.entity_id@, self.action_id@, self.action_parameter@)
    }
}

impl Encodable for EntityActionPacket {
    open spec fn wire(v: Self::V) -> Result<Seq<u8>, EncodeError> {
        join(VarInt::wire(v.0), join(VarInt::wire(v.1), VarInt::wire(v.2)))
    }

    open spec fn parse(bytes: Seq<u8>, at: int) -> Result<(Self::V, int), DecodeError> {
        match VarInt::parse(bytes, at) {
            Err(e) => Err(e),
            Ok((entity_id, at)) => match VarInt::parse(bytes, at) {
                Err(e) => Err(e),
                Ok((action_id, at)) => match VarInt::parse(bytes, at) {
                    Err(e) => Err(e),
                    Ok((action_parameter, at)) => {
                        let whole = (entity_id, action_id, action_parameter);
                        Ok((whole, at))
                    },
                },
            },
        }
    }

    open spec fn exact(v: Self::V) -> bool {
        &&& VarInt::exact(v.0)
        &&& VarInt::exact(v.1)
        &&& VarInt::exact(v.2)
    }

    proof fn lemma_round_trip(v: Self::V, before: Seq<u8>, after: Seq<u8>) {
        <(VarInt, (VarInt, VarInt))>::lemma_round_trip((v.0, (v.1, v.2)), before, after);
    }

    fn decode_at(bytes: &[u8], at: usize) -> (r: Result<(Self, usize), DecodeError>) {
        let (entity_id, at) = VarInt::decode_at(bytes, at)?;
        let (action_id, at) = VarInt::decode_at(bytes, at)?;
        let (action_parameter, at) = VarInt::decode_at(bytes, at)?;
        Ok((EntityActionPacket { entity_id, action_id, action_parameter }, at))
    }

    fn encode(&self, writer: &mut BytesMut) -> (r: Result<(), EncodeError>) {
        let start = writer.len();
        encode_field(&self.entity_id, writer, start)?;
        encode_field(&self.action_id, writer, start)?;
        encode_field(&self.action_parameter, writer, start)?;
        Ok(())
    }
}

impl Packet for EntityActionPacket {}

/// Steers the vehicle that the player rides.
pub struct SteerVehiclePacket {
    /// Positive to the left of the player.
    pub sideways: Float,

    /// Positive forward.
    pub forward: Float,

    /// Bit mask. 0x1: jump, 0x2: unmount.
    pub flags: u8,
}

impl View for SteerVehiclePacket {
    type V = (Float, Float, u8);

    open spec fn view(&self) -> Self::V {
        (self.sideways@, self.forward@, self.flags@)
    }
}

impl Encodable for SteerVehiclePacket {
    open spec fn wire(v: Self::V) -> Result<Seq<u8>, EncodeError> {
        join(Float::wire(v.0), join(Float::wire(v.1), u8::wire(v.2)))
    }

    open spec fn parse(bytes: Seq<u8>, at: int) -> Result<(Self::V, int), DecodeError> {
        match Float::parse(bytes, at) {
            Err(e) => Err(e),
            Ok((sideways, at)) => match Float::parse(bytes, at) {
                Err(e) => Err(e),
                Ok((forward, at)) => match u8::parse(bytes, at) {
                    Err(e) => Err(e),
                    Ok((flags, at)) => Ok(((sideways, forward, flags), at)),
                },
            },
        }
    }

    open spec fn exact(v: Self::V) -> bool {
        &&& Float::exact(v.0)
        &&& Float::exact(v.1)
        &&& u8::exact(v.2)
    }

    proof fn lemma_round_trip(v: Self::V, before: Seq<u8>, after: Seq<u8>) {
        <(Float, (Float, u8))>::lemma_round_trip((v.0, (v.1, v.2)), before, after);
    }

    fn decode_at(bytes: &[u8], at: usize) -> (r: Result<(Self, usize), DecodeError>) {
        let (sideways, at) = Float::decode_at(bytes, at)?;
        let (forward, at) = Float::decode_at(bytes, at)?;
        let (flags, at) = u8::decode_at(bytes, at)?;
        Ok((SteerVehiclePacket { sideways, forward, flags }, at))
    }

    fn encode(&self, writer: &mut BytesMut) -> (r: Result<(), EncodeError>) {
        let start = writer.len();
        encode_field(&self.sideways, writer, start)?;
        encode_field(&self.forward, writer, start)?;
        encode_field(&self.flags, writer, start)?;
        Ok(())
    }
}

impl Packet for SteerVehiclePacket {}

/// This packet is sent by the client when closing a window.
///
/// Notchian clients send a Close Window packet with Window ID 0 to close their inventory even
/// though there is never an Open Window packet for the inventory.
pub struct CloseWindowPacket {
    /// This is the ID of the window that was closed. 0 for player inventory.
    pub id: u8,
}

impl View for CloseWindowPacket {
    type V = u8;

    open spec fn view(&self) -> Self::V {
        self.id@
    }
}

impl Encodable for CloseWindowPacket {
    open spec fn wire(v: Self::V) -> Result<Seq<u8>, EncodeError> {
        u8::wire(v)
    }

    open spec fn parse(bytes: Seq<u8>, at: int) -> Result<(Self::V, int), DecodeError> {
        u8::parse(bytes, at)
    }

    open spec fn exact(v: Self::V) -> bool {
        u8::exact(v)
    }

    proof fn lemma_round_trip(v: Self::V, before: Seq<u8>, after: Seq<u8>) {
        u8::lemma_round_trip(v, before, after);
    }

    fn decode_at(bytes: &[u8], at: usize) -> (r: Result<(Self, usize), DecodeError>) {
        let (id, at) = u8::decode_at(bytes, at)?;
        Ok((CloseWindowPacket { id }, at))
    }

    fn encode(&self, writer: &mut BytesMut) -> (r: Result<(), EncodeError>) {
        self.id.encode(writer)
    }
}

impl Packet for CloseWindowPacket {}

/// This packet is sent by the player when it clicks on a slot in a window.
///
/// When right-clicking on a stack of items, half the stack will be picked up and half left in the
/// slot. If the stack is an odd number, the half left in the slot will be smaller of the amounts.
///
/// The distinct type of click performed by the client is determined by the combination of the Mode
/// and Button fields.
///
/// | Mode | Button | Slot    | Trigger                                               |
/// |------|--------|---------|-------------------------------------------------------|
/// | 0    | 0      | Normal  | Left mouse click                                      |
/// | 0    | 1      | Normal  | Right mouse click                                     |
/// | 1    | 0      | Normal  | Shift + left mouse click                              |
/// | 1    | 1      | Normal  | Shift + right mouse click                             |
/// | 2    | 0      | Normal  | Number key 1                                          |
/// | 2    | 1      | Normal  | Number key 2                                          |
/// | 2    | 2      | Normal  | Number key 3                                          |
/// | 2    | 3      | Normal  | Number key 4                                          |
/// | 2    | 4      | Normal  | Number key 5                                          |
/// | 2    | 5      | Normal  | Number key 6                                          |
/// | 2    | 6      | Normal  | Number key 7                                          |
/// | 2    | 7      | Normal  | Number key 8                                          |
/// | 2    | 8      | Normal  | Number key 9                                          |
/// | 3    | 2      | Normal  | Middle click                                          |
/// | 4    | 0      | Normal* | Drop key (Q) (* Clicked item is different, see above) |
/// | 4    | 1      | Normal* | Ctrl + Drop key (Ctrl-Q) (drops full stack)           |
/// | 4    | 0      | -999    | Left click outside inventory holding nothing (no-op)  |
/// | 4    | 1      | -999    | Right click outside inventory holding nothing (no-op) |
/// | 5    | 0      | -999    | Starting left mouse drag (or middle mouse)            |
/// | 5    | 4      | -999    | Starting right mouse drag                             |
/// | 5    | 1      | Normal  | Add slot for left-mouse drag                          |
/// | 5    | 5      | Normal  | Add slot for right-mouse drag                         |
/// | 5    | 2      | -999    | Ending left-mouse drag                                |
/// | 5    | 6      | -999    | Ending right-mouse drag                               |
/// | 6    | 0      | Normal  | Double click                                          |
///
/// Starting from version 1.5, "painting mode" is available for use in inventory windows. It is
/// done by picking up stack of something (more than 1 item), then holding mouse button (left,
/// right or middle) and dragging held stack over empty (or same type in case of right button)
/// slots. In that case client sends the following to server after mouse button release (omitting
/// first pickup packet which is sent as usual):
/// 1. packet with mode 5, slot -999, button (0 for left | 4 for right);
/// 2. packet for every slot painted on, mode is still 5, button (1 | 5);
/// 3. packet with mode 5, slot -999, button (2 | 6);
///
/// If any of the painting packets other than the "progress" ones are sent out of order (for
/// example, a start, some slots, then another start; or a left-click in the middle) the painting
/// status will be reset.
/// The server will send back a Confirm Transaction packet. If the click was not accepted, the
/// client must reflect that packet before sending more Click Window packets, otherwise the server
/// will reject them silently. The Notchian server also sends a Window Items packet for the open
/// window and Set Slot packets for the clicked and cursor slot, but only when the click was not
/// accepted, probably to resynchronize client and server.
pub struct ClickWindowPacket {
    /// The ID of the window which was clicked. 0 for player inventory.
    pub id: u8,

    /// The clicked slot number.
    pub slot: i16,

    /// The button used in the click.
    pub button: i8,

    /// A unique number for the action, implemented by Notchian as a counter, starting at 1. Used
    /// by the server to send back a Confirm Transaction.
    pub action_number: i16,
}

impl View for ClickWindowPacket {
    type V = (u8, i16, i8, i16);

    open spec fn view(&self) -> Self::V {
        (self.id@, self.slot@, self.button@, self.action_number@)
    }
}

impl Encodable for ClickWindowPacket {
    open spec fn wire(v: Self::V) -> Result<Seq<u8>, EncodeError> {
        join(u8::wire(v.0), join(i16::wire(v.1), join(i8::wire(v.2), i16::wire(v.3))))
    }

    open spec fn parse(bytes: Seq<u8>, at: int) -> Result<(Self::V, int), DecodeError> {
        match u8::parse(bytes, at) {
            Err(e) => Err(e),
            Ok((id, at)) => match i16::parse(bytes, at) {
                Err(e) => Err(e),
                Ok((slot, at)) => match i8::parse(bytes, at) {
                    Err(e) => Err(e),
                    Ok((button, at)) => match i16::parse(bytes, at) {
                        Err(e) => Err(e),
                        Ok((action_number, at)) => Ok(((id, slot, button, action_number), at)),
                    },
                },
            },
        }
    }

    open spec fn exact(v: Self::V) -> bool {
        &&& u8::exact(v.0)
        &&& i16::exact(v.1)
        &&& i8::exact(v.2)
        &&& i16::exact(v.3)
    }

    proof fn lemma_round_trip(v: Self::V, before: Seq<u8>, after: Seq<u8>) {
        <(u8, (i16, (i8, i16)))>::lemma_round_trip((v.0, (v.1, (v.2, v.3))), before, after);
    }

    fn decode_at(bytes: &[u8], at: usize) -> (r: Result<(Self, usize), DecodeError>) {
        let (id, at) = u8::decode_at(bytes, at)?;
        let (slot, at) = i16::decode_at(bytes, at)?;
        let (button, at) = i8::decode_at(bytes, at)?;
        let (action_number, at) = i16::decode_at(bytes, at)?;
        Ok((ClickWindowPacket { id, slot, button, action_number }, at))
    }

    fn encode(&self, writer: &mut BytesMut) -> (r: Result<(), EncodeError>) {
        let start = writer.len();
        encode_field(&self.id, writer, start)?;
        encode_field(&self.slot, writer, start)?;
        encode_field(&self.button, writer, start)?;
        encode_field(&self.action_number, writer, start)?;
        Ok(())
    }
}

impl Packet for ClickWindowPacket {}

/// If a transaction sent by the client was not accepted, the server will reply with a Confirm
/// Transaction (Play, 0x32, clientbound) packet with the Accepted field set to false. When this
/// happens, the client must reflect the packet to apologize (as with movement), otherwise the
/// server ignores any successive transactions.
pub struct ConfirmTransactionPacket {
    /// The ID of the window that the action occurred in.
    pub window_id: i8,

    /// Every action that is to be accepted has a unique number. This field corresponds to that
    /// number.
    pub action_number: i16,
}

impl View for ConfirmTransactionPacket {
    type V = (i8, i16);

    open spec fn view(&self) -> Self::V {
        (self.window_id@, self.action_number@)
    }
}

impl Encodable for ConfirmTransactionPacket {
    open spec fn wire(v: Self::V) -> Result<Seq<u8>, EncodeError> {
        join(i8::wire(v.0), i16::wire(v.1))
    }

    open spec fn parse(bytes: Seq<u8>, at: int) -> Result<(Self::V, int), DecodeError> {
        match i8::parse(bytes, at) {
            Err(e) => Err(e),
            Ok((window_id, at)) => match i16::parse(bytes, at) {
                Err(e) => Err(e),
                Ok((action_number, at)) => Ok(((window_id, action_number), at)),
            },
        }
    }

    open spec fn exact(v: Self::V) -> bool {
        &&& i8::exact(v.0)
        &&& i16::exact(v.1)
    }

    proof fn lemma_round_trip(v: Self::V, before: Seq<u8>, after: Seq<u8>) {
        <(i8, i16)>::lemma_round_trip((v.0, v.1), before, after);
    }

    fn decode_at(bytes: &[u8], at: usize) -> (r: Result<(Self, usize), DecodeError>) {
        let (window_id, at) = i8::decode_at(bytes, at)?;
        let (action_number, at) = i16::decode_at(bytes, at)?;
        Ok((ConfirmTransactionPacket { window_id, action_number }, at))
    }

    fn encode(&self, writer: &mut BytesMut) -> (r: Result<(), EncodeError>) {
        let start = writer.len();
        encode_field(&self.window_id, writer, start)?;
        encode_field(&self.action_number, writer, start)?;
        Ok(())
    }
}

impl Packet for ConfirmTransactionPacket {}

/// While the user is in the standard inventory (i.e., not a crafting bench) in Creative mode, the
/// player will send this packet.
///
/// Clicking in the creative inventory menu is quite different from non-creative inventory
/// management. Picking up an item with the mouse actually deletes the item from the server, and
/// placing an item into a slot or dropping it out of the inventory actually tells the server to
/// create the item from scratch. (This can be verified by clicking an item that you don't mind
/// deleting, then severing the connection to the server; the item will be nowhere to be found when
/// you log back in.) As a result of this implementation strategy, the "Destroy Item" slot is just
/// a client-side implementation detail that means "I don't intend to recreate this item.".
/// Additionally, the long listings of items (by category, etc.) are a client-side interface for
/// choosing which item to create. Picking up an item from such listings sends no packets to the
/// server; only when you put it somewhere does it tell the server to create the item in that
/// location.
///
/// This action can be described as "set inventory slot". Picking up an item sets the slot to item
/// ID -1. Placing an item into an inventory slot sets the slot to the specified item. Dropping an
/// item (by clicking outside the window) effectively sets slot -1 to the specified item, which
/// causes the server to spawn the item entity, etc.. All other inventory slots are numbered the
/// same as the non-creative inventory (including slots for the 2x2 crafting menu, even though they
/// aren't visible in the vanilla client).
pub struct CreativeInventoryActionPacket {
    /// Inventory slot.
    pub slot: i16,
}

impl View for CreativeInventoryActionPacket {
    type V = i16;

    open spec fn view(&self) -> Self::V {
        self.slot@
    }
}

impl Encodable for CreativeInventoryActionPacket {
    open spec fn wire(v: Self::V) -> Result<Seq<u8>, EncodeError> {
        i16::wire(v)
    }

    open spec fn parse(bytes: Seq<u8>, at: int) -> Result<(Self::V, int), DecodeError> {
        i16::parse(bytes, at)
    }

    open spec fn exact(v: Self::V) -> bool {
        i16::exact(v)
    }

    proof fn lemma_round_trip(v: Self::V, before: Seq<u8>, after: Seq<u8>) {
        i16::lemma_round_trip(v, before, after);
    }

    fn decode_at(bytes: &[u8], at: usize) -> (r: Result<(Self, usize), DecodeError>) {
        let (slot, at) = i16::decode_at(bytes, at)?;
        Ok((CreativeInventoryActionPacket { slot }, at))
    }

    fn encode(&self, writer: &mut BytesMut) -> (r: Result<(), EncodeError>) {
        self.slot.encode(writer)
    }
}

impl Packet for CreativeInventoryActionPacket {}

/// The ID of the enchantment table window sent by Open Window.
pub struct EnchantItemPacket {
    /// The ID of the enchantment table window sent by Open Window.
    pub window_id: i8,

    /// The position of the enchantment on the enchantment table window, starting with 0 as the
    /// topmost one.
    pub enchantment: i8,
}

impl View for EnchantItemPacket {
    type V = (i8, i8);

    open spec fn view(&self) -> Self::V {
        (self.window_id@, self.enchantment@)
    }
}

impl Encodable for EnchantItemPacket {
    open spec fn wire(v: Self::V) -> Result<Seq<u8>, EncodeError> {
        join(i8::wire(v.0), i8::wire(v.1))
    }

    open spec fn parse(bytes: Seq<u8>, at: int) -> Result<(Self::V, int), DecodeError> {
        match i8::parse(bytes, at) {
            Err(e) => Err(e),
            Ok((window_id, at)) => match i8::parse(bytes, at) {
                Err(e) => Err(e),
                Ok((enchantment, at)) => Ok(((window_id, enchantment), at)),
            },
        }
    }

    open spec fn exact(v: Self::V) -> bool {
        &&& i8::exact(v.0)
        &&& i8::exact(v.1)
    }

    proof fn lemma_round_trip(v: Self::V, before: Seq<u8>, after: Seq<u8>) {
        <(i8, i8)>::lemma_round_trip((v.0, v.1), before, after);
    }

    fn decode_at(bytes: &[u8], at: usize) -> (r: Result<(Self, usize), DecodeError>) {
        let (window_id, at) = i8::decode_at(bytes, at)?;
        let (enchantment, at) = i8::decode_at(bytes, at)?;
        Ok((EnchantItemPacket { window_id, enchantment }, at))
    }

    fn encode(&self, writer: &mut BytesMut) -> (r: Result<(), EncodeError>) {
        let start = writer.len();
        encode_field(&self.window_id, writer, start)?;
        encode_field(&self.enchantment, writer, start)?;
        Ok(())
    }
}

impl Packet for EnchantItemPacket {}

/// This message is sent from the client to the server when the "Done" button is pushed after
/// placing a sign.
///
/// The server only accepts this packet after Open Sign Editor, otherwise this packet is silently
/// ignored.
pub struct UpdateSignPacket {
    /// Block Coordinates.
    pub location: Position,

    /// First line of text in the sign.
    ///
    /// A chat component, as JSON text.
    pub line_1: String,

    /// Second line of text in the sign.
    ///
    /// A chat component, as JSON text.
    pub line_2: String,

    /// Third line of text in the sign.
    ///
    /// A chat component, as JSON text.
    pub line_3: String,

    /// Fourth line of text in the sign.
    ///
    /// A chat component, as JSON text.
    pub line_4: String,
}

impl View for UpdateSignPacket {
    type V = (Position, Seq<char>, Seq<char>, Seq<char>, Seq<char>);

    open spec fn view(&self) -> Self::V {
        (self.location@, self.line_1@, self.line_2@, self.line_3@, self.line_4@)
    }
}

impl Encodable for UpdateSignPacket {
    open spec fn wire(v: Self::V) -> Result<Seq<u8>, EncodeError> {
        join(
            Position::wire(v.0),
            join(
                String::wire(v.1),
                join(String::wire(v.2), join(String::wire(v.3), String::wire(v.4))),
            ),
        )
    }

    open spec fn parse(bytes: Seq<u8>, at: int) -> Result<(Self::V, int), DecodeError> {
        match Position::parse(bytes, at) {
            Err(e) => Err(e),
            Ok((location, at)) => match String::parse(bytes, at) {
                Err(e) => Err(e),
                Ok((line_1, at)) => match String::parse(bytes, at) {
                    Err(e) => Err(e),
                    Ok((line_2, at)) => match String::parse(bytes, at) {
                        Err(e) => Err(e),
                        Ok((line_3, at)) => match String::parse(bytes, at) {
                            Err(e) => Err(e),
                            Ok((line_4, at)) => {
                                let whole = (location, line_1, line_2, line_3, line_4);
                                Ok((whole, at))
                            },
                        },
                    },
                },
            },
        }
    }

    open spec fn exact(v: Self::V) -> bool {
        &&& Position::exact(v.0)
        &&& String::exact(v.1)
        &&& String::exact(v.2)
        &&& String::exact(v.3)
        &&& String::exact(v.4)
    }

    proof fn lemma_round_trip(v: Self::V, before: Seq<u8>, after: Seq<u8>) {
        <(Position, (String, (String, (String, String))))>::lemma_round_trip(
            (v.0, (v.1, (v.2, (v.3, v.4)))),
            before,
            after,
        );
    }

    fn decode_at(bytes: &[u8], at: usize) -> (r: Result<(Self, usize), DecodeError>) {
        let (location, at) = Position::decode_at(bytes, at)?;
        let (line_1, at) = String::decode_at(bytes, at)?;
        let (line_2, at) = String::decode_at(bytes, at)?;
        let (line_3, at) = String::decode_at(bytes, at)?;
        let (line_4, at) = String::decode_at(bytes, at)?;
        Ok((UpdateSignPacket { location, line_1, line_2, line_3, line_4 }, at))
    }

    fn encode(&self, writer: &mut BytesMut) -> (r: Result<(), EncodeError>) {
        let start = writer.len();
        encode_field(&self.location, writer, start)?;
        encode_field(&self.line_1, writer, start)?;
        encode_field(&self.line_2, writer, start)?;
        encode_field(&self.line_3, writer, start)?;
        encode_field(&self.line_4, writer, start)?;
        Ok(())
    }
}

impl Packet for UpdateSignPacket {}

/// The latter 2 bytes are used to indicate the walking and flying speeds respectively, while the
/// first byte is used to determine the value of 4 booleans.
///
/// The vanilla client sends this packet when the player starts/stops flying with the Flags
/// parameter changed accordingly. All other parameters are ignored by the vanilla server.
pub struct PlayerAbilitiesPacket {
    /// Bit mask. 0x08: damage disabled (god mode),
    /// 0x04: can fly,
    /// 0x02: is flying, 0x01: is Creative.
    pub flags: i8,

    pub flying_speed: Float,

    pub walking_speed: Float,
}

impl View for PlayerAbilitiesPacket {
    type V = (i8, Float, Float);

    open spec fn view(&self) -> Self::V {
        (self.flags@, self.flying_speed@, self.walking_speed@)
    }
}

impl Encodable for PlayerAbilitiesPacket {
    open spec fn wire(v: Self::V) -> Result<Seq<u8>, EncodeError> {
        join(i8::wire(v.0), join(Float::wire(v.1), Float::wire(v.2)))
    }

    open spec fn parse(bytes: Seq<u8>, at: int) -> Result<(Self::V, int), DecodeError> {
        match i8::parse(bytes, at) {
            Err(e) => Err(e),
            Ok((flags, at)) => match Float::parse(bytes, at) {
                Err(e) => Err(e),
                Ok((flying_speed, at)) => match Float::parse(bytes, at) {
                    Err(e) => Err(e),
                    Ok((walking_speed, at)) => Ok(((flags, flying_speed, walking_speed), at)),
                },
            },
        }
    }

    open spec fn exact(v: Self::V) -> bool {
        &&& i8::exact(v.0)
        &&& Float::exact(v.1)
        &&& Float::exact(v.2)
    }

    proof fn lemma_round_trip(v: Self::V, before: Seq<u8>, after: Seq<u8>) {
        <(i8, (Float, Float))>::lemma_round_trip((v.0, (v.1, v.2)), before, after);
    }

    fn decode_at(bytes: &[u8], at: usize) -> (r: Result<(Self, usize), DecodeError>) {
        let (flags, at) = i8::decode_at(bytes, at)?;
        let (flying_speed, at) = Float::decode_at(bytes, at)?;
        let (walking_speed, at) = Float::decode_at(bytes, at)?;
        Ok((PlayerAbilitiesPacket { flags, flying_speed, walking_speed }, at))
    }

    fn encode(&self, writer: &mut BytesMut) -> (r: Result<(), EncodeError>) {
        let start = writer.len();
        encode_field(&self.flags, writer, start)?;
        encode_field(&self.flying_speed, writer, start)?;
        encode_field(&self.walking_speed, writer, start)?;
        Ok(())
    }
}

impl Packet for PlayerAbilitiesPacket {}

/// Sent when the user presses tab while writing text.
pub struct TabCompletePacket {
    /// All text behind the cursor.
    pub text: String,
}

impl View for TabCompletePacket {
    type V = Seq<char>;

    open spec fn view(&self) -> Self::V {
        self.text@
    }
}

impl Encodable for TabCompletePacket {
    open spec fn wire(v: Self::V) -> Result<Seq<u8>, EncodeError> {
        String::wire(v)
    }

    open spec fn parse(bytes: Seq<u8>, at: int) -> Result<(Self::V, int), DecodeError> {
        String::parse(bytes, at)
    }

    open spec fn exact(v: Self::V) -> bool {
        String::exact(v)
    }

    proof fn lemma_round_trip(v: Self::V, before: Seq<u8>, after: Seq<u8>) {
        String::lemma_round_trip(v, before, after);
    }

    fn decode_at(bytes: &[u8], at: usize) -> (r: Result<(Self, usize), DecodeError>) {
        let (text, at) = String::decode_at(bytes, at)?;
        Ok((TabCompletePacket { text }, at))
    }

    fn encode(&self, writer: &mut BytesMut) -> (r: Result<(), EncodeError>) {
        self.text.encode(writer)
    }
}

impl Packet for TabCompletePacket {}

/// Sent when the player connects, or when settings are changed.
///
///
pub struct ClientSettingsPacket {
    /// e.g. en_GB.
    pub locale: String,

    /// Client-side render distance, in chunks.
    pub view_distance: i8,

    /// 0: enabled,
    /// 1: commands only,
    /// 2: hidden.
    pub chat_mode: i8,

    /// Skin parts.
    ///
    /// Bit 0 (0x01): Cape enabled
    /// Bit 1 (0x02): Jacket enabled
    /// Bit 2 (0x04): Left Sleeve enabled
    /// Bit 3 (0x08): Right Sleeve enabled
    /// Bit 4 (0x10): Left Pants Leg enabled
    /// Bit 5 (0x20): Right Pants Leg enabled
    /// Bit 6 (0x40): Hat enabled
    ///
    /// The most significant bit (bit 7, 0x80) appears to be unused.
    pub display_skin_parts: u8,
}

impl View for ClientSettingsPacket {
    type V = (Seq<char>, i8, i8, u8);

    open spec fn view(&self) -> Self::V {
        (self.locale@, self.view_distance@, self.chat_mode@, self.display_skin_parts@)
    }
}

impl Encodable for ClientSettingsPacket {
    open spec fn wire(v: Self::V) -> Result<Seq<u8>, EncodeError> {
        join(String::wire(v.0), join(i8::wire(v.1), join(i8::wire(v.2), u8::wire(v.3))))
    }

    open spec fn parse(bytes: Seq<u8>, at: int) -> Result<(Self::V, int), DecodeError> {
        match String::parse(bytes, at) {
            Err(e) => Err(e),
            Ok((locale, at)) => match i8::parse(bytes, at) {
                Err(e) => Err(e),
                Ok((view_distance, at)) => match i8::parse(bytes, at) {
                    Err(e) => Err(e),
                    Ok((chat_mode, at)) => match u8::parse(bytes, at) {
                        Err(e) => Err(e),
                        Ok((display_skin_parts, at)) => {
                            let whole = (locale, view_distance, chat_mode, display_skin_parts);
                            Ok((whole, at))
                        },
                    },
                },
            },
        }
    }

    open spec fn exact(v: Self::V) -> bool {
        &&& String::exact(v.0)
        &&& i8::exact(v.1)
        &&& i8::exact(v.2)
        &&& u8::exact(v.3)
    }

    proof fn lemma_round_trip(v: Self::V, before: Seq<u8>, after: Seq<u8>) {
        <(String, (i8, (i8, u8)))>::lemma_round_trip((v.0, (v.1, (v.2, v.3))), before, after);
    }

    fn decode_at(bytes: &[u8], at: usize) -> (r: Result<(Self, usize), DecodeError>) {
        let (locale, at) = String::decode_at(bytes, at)?;
        let (view_distance, at) = i8::decode_at(bytes, at)?;
        let (chat_mode, at) = i8::decode_at(bytes, at)?;
        let (display_skin_parts, at) = u8::decode_at(bytes, at)?;
        Ok((ClientSettingsPacket { locale, view_distance, chat_mode, display_skin_parts }, at))
    }

    fn encode(&self, writer: &mut BytesMut) -> (r: Result<(), EncodeError>) {
        let start = writer.len();
        encode_field(&self.locale, writer, start)?;
        encode_field(&self.view_distance, writer, start)?;
        encode_field(&self.chat_mode, writer, start)?;
        encode_field(&self.display_skin_parts, writer, start)?;
        Ok(())
    }
}

impl Packet for ClientSettingsPacket {}

/// Sent when the client is ready to complete login and when the client is ready to respawn after
/// death.
///
pub struct ClientStatusPacket {
    pub action_id: VarInt,
}

impl View for ClientStatusPacket {
    type V = VarInt;

    open spec fn view(&self) -> Self::V {
        self.action_id@
    }
}

impl Encodable for ClientStatusPacket {
    open spec fn wire(v: Self::V) -> Result<Seq<u8>, EncodeError> {
        VarInt::wire(v)
    }

    open spec fn parse(bytes: Seq<u8>, at: int) -> Result<(Self::V, int), DecodeError> {
        VarInt::parse(bytes, at)
    }

    open spec fn exact(v: Self::V) -> bool {
        VarInt::exact(v)
    }

    proof fn lemma_round_trip(v: Self::V, before: Seq<u8>, after: Seq<u8>) {
        VarInt::lemma_round_trip(v, before, after);
    }

    fn decode_at(bytes: &[u8], at: usize) -> (r: Result<(Self, usize), DecodeError>) {
        let (action_id, at) = VarInt::decode_at(bytes, at)?;
        Ok((ClientStatusPacket { action_id }, at))
    }

    fn encode(&self, writer: &mut BytesMut) -> (r: Result<(), EncodeError>) {
        self.action_id.encode(writer)
    }
}

impl Packet for ClientStatusPacket {}

/// Mods and plugins can use this to send their data. Minecraft itself uses a number of plugin
/// channels. These internal channels are prefixed with MC|.
///
/// More documentation on this:
/// http://dinnerbone.com/blog/2012/01/13/minecraft-plugin-channels-messaging/
///
/// Note that the length of Data is known only from the packet length, since the packet has no
/// length field of any kind.
pub struct PluginMessagePacket {
    /// Any data, depending on the channel. MC| channels are documented here.
    pub channel: String,
}

impl View for PluginMessagePacket {
    type V = Seq<char>;

    open spec fn view(&self) -> Self::V {
        self.channel@
    }
}

impl Encodable for PluginMessagePacket {
    open spec fn wire(v: Self::V) -> Result<Seq<u8>, EncodeError> {
        String::wire(v)
    }

    open spec fn parse(bytes: Seq<u8>, at: int) -> Result<(Self::V, int), DecodeError> {
        String::parse(bytes, at)
    }

    open spec fn exact(v: Self::V) -> bool {
        String::exact(v)
    }

    proof fn lemma_round_trip(v: Self::V, before: Seq<u8>, after: Seq<u8>) {
        String::lemma_round_trip(v, before, after);
    }

    fn decode_at(bytes: &[u8], at: usize) -> (r: Result<(Self, usize), DecodeError>) {
        let (channel, at) = String::decode_at(bytes, at)?;
        Ok((PluginMessagePacket { channel }, at))
    }

    fn encode(&self, writer: &mut BytesMut) -> (r: Result<(), EncodeError>) {
        self.channel.encode(writer)
    }
}

impl Packet for PluginMessagePacket {}

/// Teleports the player to the given entity. The player must be in spectator mode.
///
/// The Notchian client only uses this to teleport to players, but it appears to accept any type of
/// entity. The entity does not need to be in the same dimension as the player; if necessary, the
/// player will be respawned in the right world. If the given entity cannot be found (or isn't
/// loaded), this packet will be ignored. It will also be ignored if the player attempts to
/// teleport to themselves.
pub struct SpectatePacket {}

impl View for SpectatePacket {
    type V = ();

    open spec fn view(&self) -> Self::V {
        ()
    }
}

impl Encodable for SpectatePacket {
    open spec fn wire(v: Self::V) -> Result<Seq<u8>, EncodeError> {
        Ok(Seq::empty())
    }

    open spec fn parse(bytes: Seq<u8>, at: int) -> Result<(Self::V, int), DecodeError> {
        Ok(((), at))
    }

    open spec fn exact(v: Self::V) -> bool {
        true
    }

    proof fn lemma_round_trip(v: Self::V, before: Seq<u8>, after: Seq<u8>) {
        assert(before + Seq::<u8>::empty() + after =~= before + after);
    }

    fn decode_at(bytes: &[u8], at: usize) -> (r: Result<(Self, usize), DecodeError>) {
        Ok((SpectatePacket {}, at))
    }

    fn encode(&self, writer: &mut BytesMut) -> (r: Result<(), EncodeError>) {
        assert(bytes_of(*writer) + Seq::<u8>::empty() =~= bytes_of(*writer));
        Ok(())
    }
}

impl Packet for SpectatePacket {}

/// Tells what became of the resource pack that the server offered.
pub struct ResourcePackStatusPacket {
    /// The hash sent in the Resource Pack Send packet.
    pub hash: String,

    /// 0: successfully loaded,
    /// 1: declined,
    /// 2: failed download,
    /// 3: accepted.
    pub result: VarInt,
}

impl View for ResourcePackStatusPacket {
    type V = (Seq<char>, VarInt);

    open spec fn view(&self) -> Self::V {
        (self.hash@, self.result@)
    }
}

impl Encodable for ResourcePackStatusPacket {
    open spec fn wire(v: Self::V) -> Result<Seq<u8>, EncodeError> {
        join(String::wire(v.0), VarInt::wire(v.1))
    }

    open spec fn parse(bytes: Seq<u8>, at: int) -> Result<(Self::V, int), DecodeError> {
        match String::parse(bytes, at) {
            Err(e) => Err(e),
            Ok((hash, at)) => match VarInt::parse(bytes, at) {
                Err(e) => Err(e),
                Ok((result, at)) => Ok(((hash, result), at)),
            },
        }
    }

    open spec fn exact(v: Self::V) -> bool {
        &&& String::exact(v.0)
        &&& VarInt::exact(v.1)
    }

    proof fn lemma_round_trip(v: Self::V, before: Seq<u8>, after: Seq<u8>) {
        <(String, VarInt)>::lemma_round_trip((v.0, v.1), before, after);
    }

    fn decode_at(bytes: &[u8], at: usize) -> (r: Result<(Self, usize), DecodeError>) {
        let (hash, at) = String::decode_at(bytes, at)?;
        let (result, at) = VarInt::decode_at(bytes, at)?;
        Ok((ResourcePackStatusPacket { hash, result }, at))
    }

    fn encode(&self, writer: &mut BytesMut) -> (r: Result<(), EncodeError>) {
        let start = writer.len();
        encode_field(&self.hash, writer, start)?;
        encode_field(&self.result, writer, start)?;
        Ok(())
    }
}

impl Packet for ResourcePackStatusPacket {}

} // verus!
