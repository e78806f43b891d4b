//! Packets that the server sends while a player is in the game.

use crate::encoding::Encodable;
use crate::encoding::encode_field;
use crate::encoding::join;
use crate::encoding::numbers::Double;
use crate::encoding::numbers::Float;
use crate::error::DecodeError;
use crate::error::EncodeError;
use crate::packet::Packet;
use crate::position::Angle;
use crate::position::Position;
use crate::varint::VarInt;
use bytes::BytesMut;
use vstd::prelude::*;

verus! {

/// The server will frequently send out a keep-alive, each containing a random ID. The client must
/// respond with the same packet. If the client does not respond to them for over 30 seconds, the
/// server kicks the client. Vice versa, if the server does not send any keep-alives for 20
/// seconds, the client will disconnect and yields a "Timed out" exception.
pub struct KeepAlivePacket {
    /// The Random ID.
    pub id: VarInt,
}

impl View for KeepAlivePacket {
    type V = VarInt;

    open spec fn view(&self) -> Self::V {
        self.id@
    }
}

impl Encodable for KeepAlivePacket {
    open spec fn wire(v: Self::V) -> Result<Seq<u8>, EncodeError> {
        VarInt::wire(v)
    }

    open spec fn parse(bytes: Seq<u8>, at: int) -> Result<(Self::V, int), DecodeError> {
        VarInt::parse(bytes, at)
    }

    open spec fn exact(v: Self::V) -> bool {
        VarInt::exact(v)
    }

    proof fn lemma_round_trip(v: Self::V, before: Seq<u8>, after: Seq<u8>) {
        VarInt::lemma_round_trip(v, before, after);
    }

    fn decode_at(bytes: &[u8], at: usize) -> (r: Result<(Self, usize), DecodeError>) {
        let (id, at) = VarInt::decode_at(bytes, at)?;
        Ok((KeepAlivePacket { id }, at))
    }

    fn encode(&self, writer: &mut BytesMut) -> (r: Result<(), EncodeError>) {
        self.id.encode(writer)
    }
}

impl Packet for KeepAlivePacket {}

/// Sends the state of the world the player is joining on on, to the player.
///
/// # Gamemode Table:
/// | ID | Gamemode  |
/// |----|-----------|
/// | 0  | Survival  |
/// | 1  | Creative  |
/// | 2  | Adventure |
/// | 3  | Spectator |
pub struct JoinGamePacket {
    /// The player's Entity ID (EID)
    pub entity_id: i32,

    /// ID of the gamemode.
    ///
    /// Bit 3 (0x8) is the hardcore flag.
    pub gamemode: u16,

    /// -1: Nether,
    /// 0: Overworld,
    /// 1: End.
    pub dimension: i8,

    /// 0: peaceful,
    /// 1: easy,
    /// 2: normal,
    /// 3: hard.
    pub difficulty: u8,

    /// Used by the client to draw the player list
    pub max_players: u8,

    /// default, flat, largeBiomes, amplified, default_1_1
    pub level_type: String,
}

impl View for JoinGamePacket {
    type V = (i32, u16, i8, u8, u8, Seq<char>);

    open spec fn view(&self) -> Self::V {
        (
            self.entity_id@,
            self.gamemode@,
            self.dimension@,
            self.difficulty@,
            self.max_players@,
            self.level_type@,
        )
    }
}

impl Encodable for JoinGamePacket {
    open spec fn wire(v: Self::V) -> Result<Seq<u8>, EncodeError> {
        join(
            i32::wire(v.0),
            join(
                u16::wire(v.1),
                join(i8::wire(v.2), join(u8::wire(v.3), join(u8::wire(v.4), String::wire(v.5)))),
            ),
        )
    }

    open spec fn parse(bytes: Seq<u8>, at: int) -> Result<(Self::V, int), DecodeError> {
        match i32::parse(bytes, at) {
            Err(e) => Err(e),
            Ok((entity_id, at)) => match u16::parse(bytes, at) {
                Err(e) => Err(e),
                Ok((gamemode, at)) => match i8::parse(bytes, at) {
                    Err(e) => Err(e),
                    Ok((dimension, at)) => match u8::parse(bytes, at) {
                        Err(e) => Err(e),
                        Ok((difficulty, at)) => match u8::parse(bytes, at) {
                            Err(e) => Err(e),
                            Ok((max_players, at)) => match String::parse(bytes, at) {
                                Err(e) => Err(e),
                                Ok((level_type, at)) => {
                                    let whole = (entity_id, gamemode, dimension, difficulty, max_players, level_type);
                                    Ok((whole, at))
                                },
                            },
                        },
                    },
                },
            },
        }
    }

    open spec fn exact(v: Self::V) -> bool {
        &&& i32::exact(v.0)
        &&& u16::exact(v.1)
        &&& i8::exact(v.2)
        &&& u8::exact(v.3)
        &&& u8::exact(v.4)
        &&& String::exact(v.5)
    }

    proof fn lemma_round_trip(v: Self::V, before: Seq<u8>, after: Seq<u8>) {
        <(i32, (u16, (i8, (u8, (u8, String)))))>::lemma_round_trip(
            (v.0, (v.1, (v.2, (v.3, (v.4, v.5))))),
            before,
            after,
        );
    }

    fn decode_at(bytes: &[u8], at: usize) -> (r: Result<(Self, usize), DecodeError>) {
        let (entity_id, at) = i32::decode_at(bytes, at)?;
        let (gamemode, at) = u16::decode_at(bytes, at)?;
        let (dimension, at) = i8::decode_at(bytes, at)?;
        let (difficulty, at) = u8::decode_at(bytes, at)?;
        let (max_players, at) = u8::decode_at(bytes, at)?;
        let (level_type, at) = String::decode_at(bytes, at)?;
        let packet = JoinGamePacket {
            entity_id,
            gamemode,
            dimension,
            difficulty,
            max_players,
            level_type,
        };
        Ok((packet, at))
    }

    fn encode(&self, writer: &mut BytesMut) -> (r: Result<(), EncodeError>) {
        let start = writer.len();
        encode_field(&self.entity_id, writer, start)?;
        encode_field(&self.gamemode, writer, start)?;
        encode_field(&self.dimension, writer, start)?;
        encode_field(&self.difficulty, writer, start)?;
        encode_field(&self.max_players, writer, start)?;
        encode_field(&self.level_type, writer, start)?;
        Ok(())
    }
}

impl Packet for JoinGamePacket {}

/// Time is based on ticks, where 20 ticks happen every second. There are 24000 ticks in a day,
/// making Minecraft days exactly 20 minutes long.
///
/// The time of day is based on the timestamp modulo 24000. 0 is sunrise, 6000 is noon, 12000 is
/// sunset, and 18000 is midnight.
///
/// The default SMP server increments the time by 20 every second.
pub struct TimeUpdatePacket {
    /// In ticks; not changed by server commands.
    pub world_age: i64,

    /// The world (or region) time, in ticks. If negative the sun will stop moving at the Math.abs
    /// of the time.
    pub time: i64,
}

impl View for TimeUpdatePacket {
    type V = (i64, i64);

    open spec fn view(&self) -> Self::V {
        (self.world_age@, self.time@)
    }
}

impl Encodable for TimeUpdatePacket {
    open spec fn wire(v: Self::V) -> Result<Seq<u8>, EncodeError> {
        join(i64::wire(v.0), i64::wire(v.1))
    }

    open spec fn parse(bytes: Seq<u8>, at: int) -> Result<(Self::V, int), DecodeError> {
        match i64::parse(bytes, at) {
            Err(e) => Err(e),
            Ok((world_age, at)) => match i64::parse(bytes, at) {
                Err(e) => Err(e),
                Ok((time, at)) => Ok(((world_age, time), at)),
            },
        }
    }

    open spec fn exact(v: Self::V) -> bool {
        &&& i64::exact(v.0)
        &&& i64::exact(v.1)
    }

    proof fn lemma_round_trip(v: Self::V, before: Seq<u8>, after: Seq<u8>) {
        <(i64, i64)>::lemma_round_trip((v.0, v.1), before, after);
    }

    fn decode_at(bytes: &[u8], at: usize) -> (r: Result<(Self, usize), DecodeError>) {
        let (world_age, at) = i64::decode_at(bytes, at)?;
        let (time, at) = i64::decode_at(bytes, at)?;
        Ok((TimeUpdatePacket { world_age, time }, at))
    }

    fn encode(&self, writer: &mut BytesMut) -> (r: Result<(), EncodeError>) {
        let start = writer.len();
        encode_field(&self.world_age, writer, start)?;
        encode_field(&self.time, writer, start)?;
        Ok(())
    }
}

impl Packet for TimeUpdatePacket {}

/// Updates what an entity is holding in their hand.
pub struct EntityEquipmentPacket {
    /// Entity's EID.
    pub entity_id: VarInt,

    /// Equipment slot.
    /// 0: held,
    /// 1-4: armor slot (1: boots,
    ///                  2: leggings,
    ///                  3: chestplate,
    ///                  4: helmet.)
    pub slot: i16,
}

impl View for EntityEquipmentPacket {
    type V = (VarInt, i16);

    open spec fn view(&self) -> Self::V {
        (self.entity_id@, self.slot@)
    }
}

impl Encodable for EntityEquipmentPacket {
    open spec fn wire(v: Self::V) -> Result<Seq<u8>, EncodeError> {
        join(VarInt::wire(v.0), i16::wire(v.1))
    }

    open spec fn parse(bytes: Seq<u8>, at: int) -> Result<(Self::V, int), DecodeError> {
        match VarInt::parse(bytes, at) {
            Err(e) => Err(e),
            Ok((entity_id, at)) => match i16::parse(bytes, at) {
                Err(e) => Err(e),
                Ok((slot, at)) => Ok(((entity_id, slot), at)),
            },
        }
    }

    open spec fn exact(v: Self::V) -> bool {
        &&& VarInt::exact(v.0)
        &&& i16::exact(v.1)
    }

    proof fn lemma_round_trip(v: Self::V, before: Seq<u8>, after: Seq<u8>) {
        <(VarInt, i16)>::lemma_round_trip((v.0, v.1), before, after);
    }

    fn decode_at(bytes: &[u8], at: usize) -> (r: Result<(Self, usize), DecodeError>) {
        let (entity_id, at) = VarInt::decode_at(bytes, at)?;
        let (slot, at) = i16::decode_at(bytes, at)?;
        Ok((EntityEquipmentPacket { entity_id, slot }, at))
    }

    fn encode(&self, writer: &mut BytesMut) -> (r: Result<(), EncodeError>) {
        let start = writer.len();
        encode_field(&self.entity_id, writer, start)?;
        encode_field(&self.slot, writer, start)?;
        Ok(())
    }
}

impl Packet for EntityEquipmentPacket {}

/// Sent by the server after login to specify the coordinates of the spawn point (the point at
/// which players spawn at, and which the compass points to). It can be sent at any time to update
/// the point compasses point at.
pub struct SpawnPositionPacket {
    /// Spawn location.
    pub location: Position,
}

impl View for SpawnPositionPacket {
    type V = Position;

    open spec fn view(&self) -> Self::V {
        self.location@
    }
}

impl Encodable for SpawnPositionPacket {
    open spec fn wire(v: Self::V) -> Result<Seq<u8>, EncodeError> {
        Position::wire(v)
    }

    open spec fn parse(bytes: Seq<u8>, at: int) -> Result<(Self::V, int), DecodeError> {
        Position::parse(bytes, at)
    }

    open spec fn exact(v: Self::V) -> bool {
        Position::exact(v)
    }

    proof fn lemma_round_trip(v: Self::V, before: Seq<u8>, after: Seq<u8>) {
        Position::lemma_round_trip(v, before, after);
    }

    fn decode_at(bytes: &[u8], at: usize) -> (r: Result<(Self, usize), DecodeError>) {
        let (location, at) = Position::decode_at(bytes, at)?;
        Ok((SpawnPositionPacket { location }, at))
    }

    fn encode(&self, writer: &mut BytesMut) -> (r: Result<(), EncodeError>) {
        self.location.encode(writer)
    }
}

impl Packet for SpawnPositionPacket {}

/// Sent by the server to update/set the health of the player it is sent to. Food saturation acts
/// as a food "overcharge". Food values will not decrease while the saturation is over zero.
/// Players logging in automatically get a saturation of 5.0. Eating food increases the saturation
/// as well as the food bar.
pub struct UpdateHealthPacket {
    /// 0 or less = dead,
    /// 20 = full HP.
    pub health: Float,

    /// 0-20
    pub food: VarInt,

    /// Seems to vary from 0.0 to 5.0 in integer increments.
    pub saturation: Float,
}

impl View for UpdateHealthPacket {
    type V = (Float, VarInt, Float);

    open spec fn view(&self) -> Self::V {
        (self.health@, self.food@, self.saturation@)
    }
}

impl Encodable for UpdateHealthPacket {
    open spec fn wire(v: Self::V) -> Result<Seq<u8>, EncodeError> {
        join(Float::wire(v.0), join(VarInt::wire(v.1), Float::wire(v.2)))
    }

    open spec fn parse(bytes: Seq<u8>, at: int) -> Result<(Self::V, int), DecodeError> {
        match Float::parse(bytes, at) {
            Err(e) => Err(e),
            Ok((health, at)) => match VarInt::parse(bytes, at) {
                Err(e) => Err(e),
                Ok((food, at)) => match Float::parse(bytes, at) {
                    Err(e) => Err(e),
                    Ok((saturation, at)) => Ok(((health, food, saturation), at)),
                },
            },
        }
    }

    open spec fn exact(v: Self::V) -> bool {
        &&& Float::exact(v.0)
        &&& VarInt::exact(v.1)
        &&& Float::exact(v.2)
    }

    proof fn lemma_round_trip(v: Self::V, before: Seq<u8>, after: Seq<u8>) {
        <(Float, (VarInt, Float))>::lemma_round_trip((v.0, (v.1, v.2)), before, after);
    }

    fn decode_at(bytes: &[u8], at: usize) -> (r: Result<(Self, usize), DecodeError>) {
        let (health, at) = Float::decode_at(bytes, at)?;
        let (food, at) = VarInt::decode_at(bytes, at)?;
        let (saturation, at) = Float::decode_at(bytes, at)?;
        Ok((UpdateHealthPacket { health, food, saturation }, at))
    }

    fn encode(&self, writer: &mut BytesMut) -> (r: Result<(), EncodeError>) {
        let start = writer.len();
        encode_field(&self.health, writer, start)?;
        encode_field(&self.food, writer, start)?;
        encode_field(&self.saturation, writer, start)?;
        Ok(())
    }
}

impl Packet for UpdateHealthPacket {}

/// To change the player's dimension (overworld/nether/end), send them a respawn packet with the
/// appropriate dimension, followed by prechunks/chunks for the new dimension, and finally a
/// position and look packet. You do not need to unload chunks, the client will do it
/// automatically.
pub struct RespawnPacket {
    /// -1: The Nether,
    /// 0: The Overworld,
    /// 1: The End.
    pub dimension: i32,

    /// 0: Peaceful,
    /// 1: Easy,
    /// 2: Normal,
    /// 3: Hard.
    pub difficulty: u8,

    /// 0: survival,
    /// 1: creative,
    /// 2: adventure.
    /// The hardcore flag is not included.
    pub gamemode: u8,

    /// Same as Join Game
    pub level_type: String,
}

impl View for RespawnPacket {
    type V = (i32, u8, u8, Seq<char>);

    open spec fn view(&self) -> Self::V {
        (self.dimension@, self.difficulty@, self.gamemode@, self.level_type@)
    }
}

impl Encodable for RespawnPacket {
    open spec fn wire(v: Self::V) -> Result<Seq<u8>, EncodeError> {
        join(i32::wire(v.0), join(u8::wire(v.1), join(u8::wire(v.2), String::wire(v.3))))
    }

    open spec fn parse(bytes: Seq<u8>, at: int) -> Result<(Self::V, int), DecodeError> {
        match i32::parse(bytes, at) {
            Err(e) => Err(e),
            Ok((dimension, at)) => match u8::parse(bytes, at) {
                Err(e) => Err(e),
                Ok((difficulty, at)) => match u8::parse(bytes, at) {
                    Err(e) => Err(e),
                    Ok((gamemode, at)) => match String::parse(bytes, at) {
                        Err(e) => Err(e),
                        Ok((level_type, at)) => {
                            let whole = (dimension, difficulty, gamemode, level_type);
                            Ok((whole, at))
                        },
                    },
                },
            },
        }
    }

    open spec fn exact(v: Self::V) -> bool {
        &&& i32::exact(v.0)
        &&& u8::exact(v.1)
        &&& u8::exact(v.2)
        &&& String::exact(v.3)
    }

    proof fn lemma_round_trip(v: Self::V, before: Seq<u8>, after: Seq<u8>) {
        <(i32, (u8, (u8, String)))>::lemma_round_trip((v.0, (v.1, (v.2, v.3))), before, after);
    }

    fn decode_at(bytes: &[u8], at: usize) -> (r: Result<(Self, usize), DecodeError>) {
        let (dimension, at) = i32::decode_at(bytes, at)?;
        let (difficulty, at) = u8::decode_at(bytes, at)?;
        let (gamemode, at) = u8::decode_at(bytes, at)?;
        let (level_type, at) = String::decode_at(bytes, at)?;
        Ok((RespawnPacket { dimension, difficulty, gamemode, level_type }, at))
    }

    fn encode(&self, writer: &mut BytesMut) -> (r: Result<(), EncodeError>) {
        let start = writer.len();
        encode_field(&self.dimension, writer, start)?;
        encode_field(&self.difficulty, writer, start)?;
        encode_field(&self.gamemode, writer, start)?;
        encode_field(&self.level_type, writer, start)?;
        Ok(())
    }
}

impl Packet for RespawnPacket {}

/// Updates the player's position on the server. This packet will also close the "Downloading
/// Terrain" screen when joining/respawning.
///
/// If the distance between the last known position of the player on the server and the new
/// position set by this packet is greater than 100 meters, the client will be kicked for "You
/// moved too quickly :( (Hacking?)".
///
/// Also if the fixed-point number of X or Z is set greater than 3.2E7D the client will be kicked
/// for "Illegal position".
///
/// Yaw is measured in degrees, and does not follow classical trigonometry rules. The unit circle
/// of yaw on the XZ-plane starts at (0, 1) and turns counterclockwise, with 90 at (-1, 0), 180 at
/// (0, -1) and 270 at (1, 0). Additionally, yaw is not clamped to between 0 and 360 degrees; any
/// number is valid, including negative numbers and numbers greater than 360.
///
/// Pitch is measured in degrees, where 0 is looking straight ahead, -90 is looking straight up,
/// and 90 is looking straight down.
///
/// The yaw and pitch of player (in degrees), standing at point (x0, y0, z0) and looking towards
/// point (x, y, z) one can be calculated with:
/// ```
/// dx = x-x0
/// dy = y-y0
/// dz = z-z0
/// r = sqrt( dx*dx + dy*dy + dz*dz )
/// yaw = -atan2(dx,dz)/PI*180
/// if yaw < 0 then
///     yaw = 360 - yaw
/// pitch = -arcsin(dy/r)/PI*180
/// ```
///
/// You can get a unit vector from a given yaw/pitch via:
/// ```
/// x = -cos(pitch) * sin(yaw)
/// y = -sin(pitch)
/// z =  cos(pitch) * cos(yaw)
/// ```
pub struct PlayerPositionAndLookPacket {
    /// Absolute or relative position, depending on Flags.
    pub x: Double,

    /// Absolute or relative position, depending on Flags.
    pub y: Double,

    /// Absolute or relative position, depending on Flags.
    pub z: Double,

    /// Absolute or relative rotation on the X Axis, in degrees.
    pub yaw: Float,

    /// Absolute or relative rotation on the Y Axis, in degrees.
    pub pitch: Float,
}

impl View for PlayerPositionAndLookPacket {
    type V = (Double, Double, Double, Float, Float);

    open spec fn view(&self) -> Self::V {
        (self.x@, self.y@, self.z@, self.yaw@, self.pitch@)
    }
}

impl Encodable for PlayerPositionAndLookPacket {
    open spec fn wire(v: Self::V) -> Result<Seq<u8>, EncodeError> {
        join(
            Double::wire(v.0),
            join(
                Double::wire(v.1),
                join(Double::wire(v.2), join(Float::wire(v.3), Float::wire(v.4))),
            ),
        )
    }

    open spec fn parse(bytes: Seq<u8>, at: int) -> Result<(Self::V, int), DecodeError> {
        match Double::parse(bytes, at) {
            Err(e) => Err(e),
            Ok((x, at)) => match Double::parse(bytes, at) {
                Err(e) => Err(e),
                Ok((y, at)) => match Double::parse(bytes, at) {
                    Err(e) => Err(e),
                    Ok((z, at)) => match Float::parse(bytes, at) {
                        Err(e) => Err(e),
                        Ok((yaw, at)) => match Float::parse(bytes, at) {
                            Err(e) => Err(e),
                            Ok((pitch, at)) => Ok(((x, y, z, yaw, pitch), at)),
                        },
                    },
                },
            },
        }
    }

    open spec fn exact(v: Self::V) -> bool {
        &&& Double::exact(v.0)
        &&& Double::exact(v.1)
        &&& Double::exact(v.2)
        &&& Float::exact(v.3)
        &&& Float::exact(v.4)
    }

    proof fn lemma_round_trip(v: Self::V, before: Seq<u8>, after: Seq<u8>) {
        <(Double, (Double, (Double, (Float, Float))))>::lemma_round_trip(
            (v.0, (v.1, (v.2, (v.3, v.4)))),
            before,
            after,
        );
    }

    fn decode_at(bytes: &[u8], at: usize) -> (r: Result<(Self, usize), DecodeError>) {
        let (x, at) = Double::decode_at(bytes, at)?;
        let (y, at) = Double::decode_at(bytes, at)?;
        let (z, at) = Double::decode_at(bytes, at)?;
        let (yaw, at) = Float::decode_at(bytes, at)?;
        let (pitch, at) = Float::decode_at(bytes, at)?;
        Ok((PlayerPositionAndLookPacket { x, y, z, yaw, pitch }, at))
    }

    fn encode(&self, writer: &mut BytesMut) -> (r: Result<(), EncodeError>) {
        let start = writer.len();
        encode_field(&self.x, writer, start)?;
        encode_field(&self.y, writer, start)?;
        encode_field(&self.z, writer, start)?;
        encode_field(&self.yaw, writer, start)?;
        encode_field(&self.pitch, writer, start)?;
        Ok(())
    }
}

impl Packet for PlayerPositionAndLookPacket {}

/// Sent to change the player's slot selection.
pub struct HeldItemChangePacket {
    /// The slot which the player has selected (0-8.)
    pub slot: i8,
}

impl View for HeldItemChangePacket {
    type V = i8;

    open spec fn view(&self) -> Self::V {
        self.slot@
    }
}

impl Encodable for HeldItemChangePacket {
    open spec fn wire(v: Self::V) -> Result<Seq<u8>, EncodeError> {
        i8::wire(v)
    }

    open spec fn parse(bytes: Seq<u8>, at: int) -> Result<(Self::V, int), DecodeError> {
        i8::parse(bytes, at)
    }

    open spec fn exact(v: Self::V) -> bool {
        i8::exact(v)
    }

    proof fn lemma_round_trip(v: Self::V, before: Seq<u8>, after: Seq<u8>) {
        i8::lemma_round_trip(v, before, after);
    }

    fn decode_at(bytes: &[u8], at: usize) -> (r: Result<(Self, usize), DecodeError>) {
        let (slot, at) = i8::decode_at(bytes, at)?;
        Ok((HeldItemChangePacket { slot }, at))
    }

    fn encode(&self, writer: &mut BytesMut) -> (r: Result<(), EncodeError>) {
        self.slot.encode(writer)
    }
}

impl Packet for HeldItemChangePacket {}

/// This packet tells that a player goes to bed. The client with the matching Entity ID will go
/// into bed mode. This Packet is sent to all nearby players including the one sent to bed.
pub struct UseBedPacket {
    /// Sleeping player's EID.
    pub entity_id: VarInt,

    /// Block location of the head part of the bed.
    pub location: Position,
}

impl View for UseBedPacket {
    type V = (VarInt, Position);

    open spec fn view(&self) -> Self::V {
        (self.entity_id@, self.location@)
    }
}

impl Encodable for UseBedPacket {
    open spec fn wire(v: Self::V) -> Result<Seq<u8>, EncodeError> {
        join(VarInt::wire(v.0), Position::wire(v.1))
    }

    open spec fn parse(bytes: Seq<u8>, at: int) -> Result<(Self::V, int), DecodeError> {
        match VarInt::parse(bytes, at) {
            Err(e) => Err(e),
            Ok((entity_id, at)) => match Position::parse(bytes, at) {
                Err(e) => Err(e),
                Ok((location, at)) => Ok(((entity_id, location), at)),
            },
        }
    }

    open spec fn exact(v: Self::V) -> bool {
        &&& VarInt::exact(v.0)
        &&& Position::exact(v.1)
    }

    proof fn lemma_round_trip(v: Self::V, before: Seq<u8>, after: Seq<u8>) {
        <(VarInt, Position)>::lemma_round_trip((v.0, v.1), before, after);
    }

    fn decode_at(bytes: &[u8], at: usize) -> (r: Result<(Self, usize), DecodeError>) {
        let (entity_id, at) = VarInt::decode_at(bytes, at)?;
        let (location, at) = Position::decode_at(bytes, at)?;
        Ok((UseBedPacket { entity_id, location }, at))
    }

    fn encode(&self, writer: &mut BytesMut) -> (r: Result<(), EncodeError>) {
        let start = writer.len();
        encode_field(&self.entity_id, writer, start)?;
        encode_field(&self.location, writer, start)?;
        Ok(())
    }
}

impl Packet for UseBedPacket {}

/// Sent whenever an entity should change animation.
pub struct AnimationPacket {
    /// Player ID.
    pub entity_id: VarInt,

    /// Animation ID.
    ///
    /// Animation can be one of the following values:
    /// ID     Animation
    /// 0      Swing arm
    /// 1      Take damage
    /// 2      Leave bed
    /// 3      Eat food
    /// 4      Critical effect
    /// 5      Magic critical effect
    pub animation: u8,
}

impl View for AnimationPacket {
    type V = (VarInt, u8);

    open spec fn view(&self) -> Self::V {
        (self.entity_id@, self.animation@)
    }
}

impl Encodable for AnimationPacket {
    open spec fn wire(v: Self::V) -> Result<Seq<u8>, EncodeError> {
        join(VarInt::wire(v.0), u8::wire(v.1))
    }

    open spec fn parse(bytes: Seq<u8>, at: int) -> Result<(Self::V, int), DecodeError> {
        match VarInt::parse(bytes, at) {
            Err(e) => Err(e),
            Ok((entity_id, at)) => match u8::parse(bytes, at) {
                Err(e) => Err(e),
                Ok((animation, at)) => Ok(((entity_id, animation), at)),
            },
        }
    }

    open spec fn exact(v: Self::V) -> bool {
        &&& VarInt::exact(v.0)
        &&& u8::exact(v.1)
    }

    proof fn lemma_round_trip(v: Self::V, before: Seq<u8>, after: Seq<u8>) {
        <(VarInt, u8)>::lemma_round_trip((v.0, v.1), before, after);
    }

    fn decode_at(bytes: &[u8], at: usize) -> (r: Result<(Self, usize), DecodeError>) {
        let (entity_id, at) = VarInt::decode_at(bytes, at)?;
        let (animation, at) = u8::decode_at(bytes, at)?;
        Ok((AnimationPacket { entity_id, animation }, at))
    }

    fn encode(&self, writer: &mut BytesMut) -> (r: Result<(), EncodeError>) {
        let start = writer.len();
        encode_field(&self.entity_id, writer, start)?;
        encode_field(&self.animation, writer, start)?;
        Ok(())
    }
}

impl Packet for AnimationPacket {}

/// This packet is sent by the server when a player comes into visible range, not when a player
/// joins.
///
/// This packet must be sent after the Player List Item (Play, 0x38, clientbound) packet that adds
/// the player data for the client to use when spawning a player. If the tab list entry for the
/// UUID included in this packet is not present when this packet arrives, the entity will not be
/// spawned. The tab includes skin/cape data.
///
/// Servers can, however, safely spawn player entities for players not in visible range. The client
/// appears to handle it correctly.
///
/// When in online-mode the UUIDs must be valid and have valid skin blobs, in offline-mode UUID v3
/// is used.
///
/// For NPCs UUID v2 should be used. Note:
/// ```text
/// <+Grum> i will never confirm this as a feature you know that :)
/// ```
///
/// In an example UUID, `xxxxxxxx-xxxx-Yxxx-xxxx-xxxxxxxxxxxx`, the UUID version is specified by Y.
/// So, for UUID v3, Y will always be 3, and for UUID v2, Y will always be 2.
pub struct SpawnPlayerPacket {
    /// Player's EID.
    pub entity_id: VarInt,

    /// Player X as a Fixed-Point number.
    pub x: i32,

    /// Player Y as a Fixed-Point number.
    pub y: i32,

    /// Player Z as a Fixed-Point number.
    pub z: i32,

    /// The item the player is currently holding. Note that this should be 0 for "no item", unlike
    /// -1 used in other packets.
    pub current_item: i16,
}

impl View for SpawnPlayerPacket {
    type V = (VarInt, i32, i32, i32, i16);

    open spec fn view(&self) -> Self::V {
        (self.entity_id@, self.x@, self.y@, self.z@, self.current_item@)
    }
}

impl Encodable for SpawnPlayerPacket {
    open spec fn wire(v: Self::V) -> Result<Seq<u8>, EncodeError> {
        join(
            VarInt::wire(v.0),
            join(i32::wire(v.1), join(i32::wire(v.2), join(i32::wire(v.3), i16::wire(v.4)))),
        )
    }

    open spec fn parse(bytes: Seq<u8>, at: int) -> Result<(Self::V, int), DecodeError> {
        match VarInt::parse(bytes, at) {
            Err(e) => Err(e),
            Ok((entity_id, at)) => match i32::parse(bytes, at) {
                Err(e) => Err(e),
                Ok((x, at)) => match i32::parse(bytes, at) {
                    Err(e) => Err(e),
                    Ok((y, at)) => match i32::parse(bytes, at) {
                        Err(e) => Err(e),
                        Ok((z, at)) => match i16::parse(bytes, at) {
                            Err(e) => Err(e),
                            Ok((current_item, at)) => Ok(((entity_id, x, y, z, current_item), at)),
                        },
                    },
                },
            },
        }
    }

    open spec fn exact(v: Self::V) -> bool {
        &&& VarInt::exact(v.0)
        &&& i32::exact(v.1)
        &&& i32::exact(v.2)
        &&& i32::exact(v.3)
        &&& i16::exact(v.4)
    }

    proof fn lemma_round_trip(v: Self::V, before: Seq<u8>, after: Seq<u8>) {
        <(VarInt, (i32, (i32, (i32, i16))))>::lemma_round_trip(
            (v.0, (v.1, (v.2, (v.3, v.4)))),
            before,
            after,
        );
    }

    fn decode_at(bytes: &[u8], at: usize) -> (r: Result<(Self, usize), DecodeError>) {
        let (entity_id, at) = VarInt::decode_at(bytes, at)?;
        let (x, at) = i32::decode_at(bytes, at)?;
        let (y, at) = i32::decode_at(bytes, at)?;
        let (z, at) = i32::decode_at(bytes, at)?;
        let (current_item, at) = i16::decode_at(bytes, at)?;
        Ok((SpawnPlayerPacket { entity_id, x, y, z, current_item }, at))
    }

    fn encode(&self, writer: &mut BytesMut) -> (r: Result<(), EncodeError>) {
        let start = writer.len();
        encode_field(&self.entity_id, writer, start)?;
        encode_field(&self.x, writer, start)?;
        encode_field(&self.y, writer, start)?;
        encode_field(&self.z, writer, start)?;
        encode_field(&self.current_item, writer, start)?;
        Ok(())
    }
}

impl Packet for SpawnPlayerPacket {}

/// Sent by the server when someone picks up an item lying on the ground - its sole purpose appears
/// to be the animation of the item flying towards you. It doesn't destroy the entity in the client
/// memory, and it doesn't add it to your inventory. The server only checks for items to be picked
/// up after each Player Position (and Player Position And Look) packet sent by the client.
pub struct CollectItemPacket {
    /// EID of the item being collected.
    pub collected_entity_id: VarInt,

    /// EID of the entity collecting the item.
    pub collector_entity_id: VarInt,
}

impl View for CollectItemPacket {
    type V = (VarInt, VarInt);

    open spec fn view(&self) -> Self::V {
        (self.collected_entity_id@, self.collector_entity_id@)
    }
}

impl Encodable for CollectItemPacket {
    open spec fn wire(v: Self::V) -> Result<Seq<u8>, EncodeError> {
        join(VarInt::wire(v.0), VarInt::wire(v.1))
    }

    open spec fn parse(bytes: Seq<u8>, at: int) -> Result<(Self::V, int), DecodeError> {
        match VarInt::parse(bytes, at) {
            Err(e) => Err(e),
            Ok((collected_entity_id, at)) => match VarInt::parse(bytes, at) {
                Err(e) => Err(e),
                Ok((collector_entity_id, at)) => {
                    let whole = (collected_entity_id, collector_entity_id);
                    Ok((whole, at))
                },
            },
        }
    }

    open spec fn exact(v: Self::V) -> bool {
        &&& VarInt::exact(v.0)
        &&& VarInt::exact(v.1)
    }

    proof fn lemma_round_trip(v: Self::V, before: Seq<u8>, after: Seq<u8>) {
        <(VarInt, VarInt)>::lemma_round_trip((v.0, v.1), before, after);
    }

    fn decode_at(bytes: &[u8], at: usize) -> (r: Result<(Self, usize), DecodeError>) {
        let (collected_entity_id, at) = VarInt::decode_at(bytes, at)?;
        let (collector_entity_id, at) = VarInt::decode_at(bytes, at)?;
        Ok((CollectItemPacket { collected_entity_id, collector_entity_id }, at))
    }

    fn encode(&self, writer: &mut BytesMut) -> (r: Result<(), EncodeError>) {
        let start = writer.len();
        encode_field(&self.collected_entity_id, writer, start)?;
        encode_field(&self.collector_entity_id, writer, start)?;
        Ok(())
    }
}

impl Packet for CollectItemPacket {}

/// Sent by the server when a vehicle or other object is created.
pub struct SpawnObjectPacket {
    /// EID of the object.
    pub entity_id: VarInt,

    /// The type of object.
    pub type_: i8,

    /// X position as a Fixed-Point number.
    pub x: i32,

    /// Y position as a Fixed-Point number.
    pub y: i32,

    /// Z position as a Fixed-Point number.
    pub z: i32,

    /// Meaning dependent on the value of the Type field, see Object Data for details.
    pub data: i32,
}

impl View for SpawnObjectPacket {
    type V = (VarInt, i8, i32, i32, i32, i32);

    open spec fn view(&self) -> Self::V {
        (self.entity_id@, self.type_@, self.x@, self.y@, self.z@, self.data@)
    }
}

impl Encodable for SpawnObjectPacket {
    open spec fn wire(v: Self::V) -> Result<Seq<u8>, EncodeError> {
        join(
            VarInt::wire(v.0),
            join(
                i8::wire(v.1),
                join(i32::wire(v.2), join(i32::wire(v.3), join(i32::wire(v.4), i32::wire(v.5)))),
            ),
        )
    }

    open spec fn parse(bytes: Seq<u8>, at: int) -> Result<(Self::V, int), DecodeError> {
        match VarInt::parse(bytes, at) {
            Err(e) => Err(e),
            Ok((entity_id, at)) => match i8::parse(bytes, at) {
                Err(e) => Err(e),
                Ok((type_, at)) => match i32::parse(bytes, at) {
                    Err(e) => Err(e),
                    Ok((x, at)) => match i32::parse(bytes, at) {
                        Err(e) => Err(e),
                        Ok((y, at)) => match i32::parse(bytes, at) {
                            Err(e) => Err(e),
                            Ok((z, at)) => match i32::parse(bytes, at) {
                                Err(e) => Err(e),
                                Ok((data, at)) => Ok(((entity_id, type_, x, y, z, data), at)),
                            },
                        },
                    },
                },
            },
        }
    }

    open spec fn exact(v: Self::V) -> bool {
        &&& VarInt::exact(v.0)
        &&& i8::exact(v.1)
        &&& i32::exact(v.2)
        &&& i32::exact(v.3)
        &&& i32::exact(v.4)
        &&& i32::exact(v.5)
    }

    proof fn lemma_round_trip(v: Self::V, before: Seq<u8>, after: Seq<u8>) {
        <(VarInt, (i8, (i32, (i32, (i32, i32)))))>::lemma_round_trip(
            (v.0, (v.1, (v.2, (v.3, (v.4, v.5))))),
            before,
            after,
        );
    }

    fn decode_at(bytes: &[u8], at: usize) -> (r: Result<(Self, usize), DecodeError>) {
        let (entity_id, at) = VarInt::decode_at(bytes, at)?;
        let (type_, at) = i8::decode_at(bytes, at)?;
        let (x, at) = i32::decode_at(bytes, at)?;
        let (y, at) = i32::decode_at(bytes, at)?;
        let (z, at) = i32::decode_at(bytes, at)?;
        let (data, at) = i32::decode_at(bytes, at)?;
        Ok((SpawnObjectPacket { entity_id, type_, x, y, z, data }, at))
    }

    fn encode(&self, writer: &mut BytesMut) -> (r: Result<(), EncodeError>) {
        let start = writer.len();
        encode_field(&self.entity_id, writer, start)?;
        encode_field(&self.type_, writer, start)?;
        encode_field(&self.x, writer, start)?;
        encode_field(&self.y, writer, start)?;
        encode_field(&self.z, writer, start)?;
        encode_field(&self.data, writer, start)?;
        Ok(())
    }
}

impl Packet for SpawnObjectPacket {}

/// Sent by the server when a vehicle or other object is created.
pub struct SpawnMobPacket {
    /// EID of the object.
    pub entity_id: VarInt,

    /// The type of object.
    pub type_: u8,

    /// X position as a Fixed-Point number
    pub x: i32,

    /// Y position as a Fixed-Point number
    pub y: i32,

    /// Z position as a Fixed-Point number
    pub z: i32,

    /// Velocity on the X Axis.
    pub velocity_x: i16,

    /// Velocity on the Y Axis.
    pub velocity_y: i16,

    /// Velocity on the Z Axis.
    pub velocity_z: i16,
}

impl View for SpawnMobPacket {
    type V = (VarInt, u8, i32, i32, i32, i16, i16, i16);

    open spec fn view(&self) -> Self::V {
        (
            self.entity_id@,
            self.type_@,
            self.x@,
            self.y@,
            self.z@,
            self.velocity_x@,
            self.velocity_y@,
            self.velocity_z@,
        )
    }
}

impl Encodable for SpawnMobPacket {
    open spec fn wire(v: Self::V) -> Result<Seq<u8>, EncodeError> {
        join(
            VarInt::wire(v.0),
            join(
                u8::wire(v.1),
                join(
                    i32::wire(v.2),
                    join(
                        i32::wire(v.3),
                        join(
                            i32::wire(v.4),
                            join(i16::wire(v.5), join(i16::wire(v.6), i16::wire(v.7))),
                        ),
                    ),
                ),
            ),
        )
    }

    open spec fn parse(bytes: Seq<u8>, at: int) -> Result<(Self::V, int), DecodeError> {
        match VarInt::parse(bytes, at) {
            Err(e) => Err(e),
            Ok((entity_id, at)) => match u8::parse(bytes, at) {
                Err(e) => Err(e),
                Ok((type_, at)) => match i32::parse(bytes, at) {
                    Err(e) => Err(e),
                    Ok((x, at)) => match i32::parse(bytes, at) {
                        Err(e) => Err(e),
                        Ok((y, at)) => match i32::parse(bytes, at) {
                            Err(e) => Err(e),
                            Ok((z, at)) => match i16::parse(bytes, at) {
                                Err(e) => Err(e),
                                Ok((velocity_x, at)) => match i16::parse(bytes, at) {
                                    Err(e) => Err(e),
                                    Ok((velocity_y, at)) => match i16::parse(bytes, at) {
                                        Err(e) => Err(e),
                                        Ok((velocity_z, at)) => {
                                            let whole = (entity_id, type_, x, y, z, velocity_x, velocity_y, velocity_z);
                                            Ok((whole, at))
                                        },
                                    },
                                },
                            },
                        },
                    },
                },
            },
        }
    }

    open spec fn exact(v: Self::V) -> bool {
        &&& VarInt::exact(v.0)
        &&& u8::exact(v.1)
        &&& i32::exact(v.2)
        &&& i32::exact(v.3)
        &&& i32::exact(v.4)
        &&& i16::exact(v.5)
        &&& i16::exact(v.6)
        &&& i16::exact(v.7)
    }

    proof fn lemma_round_trip(v: Self::V, before: Seq<u8>, after: Seq<u8>) {
        <(VarInt, (u8, (i32, (i32, (i32, (i16, (i16, i16)))))))>::lemma_round_trip(
            (v.0, (v.1, (v.2, (v.3, (v.4, (v.5, (v.6, v.7))))))),
            before,
            after,
        );
    }

    fn decode_at(bytes: &[u8], at: usize) -> (r: Result<(Self, usize), DecodeError>) {
        let (entity_id, at) = VarInt::decode_at(bytes, at)?;
        let (type_, at) = u8::decode_at(bytes, at)?;
        let (x, at) = i32::decode_at(bytes, at)?;
        let (y, at) = i32::decode_at(bytes, at)?;
        let (z, at) = i32::decode_at(bytes, at)?;
        let (velocity_x, at) = i16::decode_at(bytes, at)?;
        let (velocity_y, at) = i16::decode_at(bytes, at)?;
        let (velocity_z, at) = i16::decode_at(bytes, at)?;
        Ok((SpawnMobPacket { entity_id, type_, x, y, z, velocity_x, velocity_y, velocity_z }, at))
    }

    fn encode(&self, writer: &mut BytesMut) -> (r: Result<(), EncodeError>) {
        let start = writer.len();
        encode_field(&self.entity_id, writer, start)?;
        encode_field(&self.type_, writer, start)?;
        encode_field(&self.x, writer, start)?;
        encode_field(&self.y, writer, start)?;
        encode_field(&self.z, writer, start)?;
        encode_field(&self.velocity_x, writer, start)?;
        encode_field(&self.velocity_y, writer, start)?;
        encode_field(&self.velocity_z, writer, start)?;
        Ok(())
    }
}

impl Packet for SpawnMobPacket {}

/// This packet shows location, name, and type of painting.
///
/// Calculating the center of an image: given a (width x height) grid of cells, with (0, 0) being
/// the top left corner, the center is (max(0, width / 2 - 1), height / 2). E.g.
/// ```
/// 2x1 (1, 0)
/// 4x4 (1, 2)
/// ```
pub struct SpawnPaintingPacket {
    /// EID of the entity.
    pub entity_id: VarInt,

    /// Name of the painting. Max length 13.
    pub title: String,

    /// Center coordinates.
    pub location: Position,

    /// ID of the Direction the painting faces.
    ///
    /// | ID | Direction  |
    /// |----|------------|
    /// | 0  | North (-z) |
    /// | 1  | West (-x)  |
    /// | 2  | South (+z) |
    /// | 3  | East (+x)  |
    pub direction: u8,
}

impl View for SpawnPaintingPacket {
    type V = (VarInt, Seq<char>, Position, u8);

    open spec fn view(&self) -> Self::V {
        (self.entity_id@, self.title@, self.location@, self.direction@)
    }
}

impl Encodable for SpawnPaintingPacket {
    open spec fn wire(v: Self::V) -> Result<Seq<u8>, EncodeError> {
        join(VarInt::wire(v.0), join(String::wire(v.1), join(Position::wire(v.2), u8::wire(v.3))))
    }

    open spec fn parse(bytes: Seq<u8>, at: int) -> Result<(Self::V, int), DecodeError> {
        match VarInt::parse(bytes, at) {
            Err(e) => Err(e),
            Ok((entity_id, at)) => match String::parse(bytes, at) {
                Err(e) => Err(e),
                Ok((title, at)) => match Position::parse(bytes, at) {
                    Err(e) => Err(e),
                    Ok((location, at)) => match u8::parse(bytes, at) {
                        Err(e) => Err(e),
                        Ok((direction, at)) => Ok(((entity_id, title, location, direction), at)),
                    },
                },
            },
        }
    }

    open spec fn exact(v: Self::V) -> bool {
        &&& VarInt::exact(v.0)
        &&& String::exact(v.1)
        &&& Position::exact(v.2)
        &&& u8::exact(v.3)
    }

    proof fn lemma_round_trip(v: Self::V, before: Seq<u8>, after: Seq<u8>) {
        <(VarInt, (String, (Position, u8)))>::lemma_round_trip(
            (v.0, (v.1, (v.2, v.3))),
            before,
            after,
        );
    }

    fn decode_at(bytes: &[u8], at: usize) -> (r: Result<(Self, usize), DecodeError>) {
        let (entity_id, at) = VarInt::decode_at(bytes, at)?;
        let (title, at) = String::decode_at(bytes, at)?;
        let (location, at) = Position::decode_at(bytes, at)?;
        let (direction, at) = u8::decode_at(bytes, at)?;
        Ok((SpawnPaintingPacket { entity_id, title, location, direction }, at))
    }

    fn encode(&self, writer: &mut BytesMut) -> (r: Result<(), EncodeError>) {
        let start = writer.len();
        encode_field(&self.entity_id, writer, start)?;
        encode_field(&self.title, writer, start)?;
        encode_field(&self.location, writer, start)?;
        encode_field(&self.direction, writer, start)?;
        Ok(())
    }
}

impl Packet for SpawnPaintingPacket {}

/// Spawns one or more experience orbs.
pub struct SpawnExperienceOrbPacket {
    /// EID of the entity.
    pub entity_id: VarInt,

    /// Player X as a Fixed-Point number.
    pub x: i32,

    /// Player Y as a Fixed-Point number.
    pub y: i32,

    /// Player Z as a Fixed-Point number.
    pub z: i32,

    /// The amount of experience this orb will reward once collected.
    pub count: i16,
}

impl View for SpawnExperienceOrbPacket {
    type V = (VarInt, i32, i32, i32, i16);

    open spec fn view(&self) -> Self::V {
        (self.entity_id@, self.x@, self.y@, self.z@, self.count@)
    }
}

impl Encodable for SpawnExperienceOrbPacket {
    open spec fn wire(v: Self::V) -> Result<Seq<u8>, EncodeError> {
        join(
            VarInt::wire(v.0),
            join(i32::wire(v.1), join(i32::wire(v.2), join(i32::wire(v.3), i16::wire(v.4)))),
        )
    }

    open spec fn parse(bytes: Seq<u8>, at: int) -> Result<(Self::V, int), DecodeError> {
        match VarInt::parse(bytes, at) {
            Err(e) => Err(e),
            Ok((entity_id, at)) => match i32::parse(bytes, at) {
                Err(e) => Err(e),
                Ok((x, at)) => match i32::parse(bytes, at) {
                    Err(e) => Err(e),
                    Ok((y, at)) => match i32::parse(bytes, at) {
                        Err(e) => Err(e),
                        Ok((z, at)) => match i16::parse(bytes, at) {
                            Err(e) => Err(e),
                            Ok((count, at)) => Ok(((entity_id, x, y, z, count), at)),
                        },
                    },
                },
            },
        }
    }

    open spec fn exact(v: Self::V) -> bool {
        &&& VarInt::exact(v.0)
        &&& i32::exact(v.1)
        &&& i32::exact(v.2)
        &&& i32::exact(v.3)
        &&& i16::exact(v.4)
    }

    proof fn lemma_round_trip(v: Self::V, before: Seq<u8>, after: Seq<u8>) {
        <(VarInt, (i32, (i32, (i32, i16))))>::lemma_round_trip(
            (v.0, (v.1, (v.2, (v.3, v.4)))),
            before,
            after,
        );
    }

    fn decode_at(bytes: &[u8], at: usize) -> (r: Result<(Self, usize), DecodeError>) {
        let (entity_id, at) = VarInt::decode_at(bytes, at)?;
        let (x, at) = i32::decode_at(bytes, at)?;
        let (y, at) = i32::decode_at(bytes, at)?;
        let (z, at) = i32::decode_at(bytes, at)?;
        let (count, at) = i16::decode_at(bytes, at)?;
        Ok((SpawnExperienceOrbPacket { entity_id, x, y, z, count }, at))
    }

    fn encode(&self, writer: &mut BytesMut) -> (r: Result<(), EncodeError>) {
        let start = writer.len();
        encode_field(&self.entity_id, writer, start)?;
        encode_field(&self.x, writer, start)?;
        encode_field(&self.y, writer, start)?;
        encode_field(&self.z, writer, start)?;
        encode_field(&self.count, writer, start)?;
        Ok(())
    }
}

impl Packet for SpawnExperienceOrbPacket {}

/// Velocity is believed to be in units of 1/8000 of a block per server tick (50ms); for example,
/// -1343 would move (-1343 / 8000) = -0.167875 blocks per tick (or -3,3575 blocks per second).
pub struct EntityVelocityPacket {
    /// EID of the entity.
    pub entity_id: VarInt,

    /// Velocity on the X axis.
    pub velocity_x: i16,

    /// Velocity on the Y axis.
    pub velocity_y: i16,

    /// Velocity on the Z axis.
    pub velocity_z: i16,
}

impl View for EntityVelocityPacket {
    type V = (VarInt, i16, i16, i16);

    open spec fn view(&self) -> Self::V {
        (self.entity_id@, self.velocity_x@, self.velocity_y@, self.velocity_z@)
    }
}

impl Encodable for EntityVelocityPacket {
    open spec fn wire(v: Self::V) -> Result<Seq<u8>, EncodeError> {
        join(VarInt::wire(v.0), join(i16::wire(v.1), join(i16::wire(v.2), i16::wire(v.3))))
    }

    open spec fn parse(bytes: Seq<u8>, at: int) -> Result<(Self::V, int), DecodeError> {
        match VarInt::parse(bytes, at) {
            Err(e) => Err(e),
            Ok((entity_id, at)) => match i16::parse(bytes, at) {
                Err(e) => Err(e),
                Ok((velocity_x, at)) => match i16::parse(bytes, at) {
                    Err(e) => Err(e),
                    Ok((velocity_y, at)) => match i16::parse(bytes, at) {
                        Err(e) => Err(e),
                        Ok((velocity_z, at)) => {
                            let whole = (entity_id, velocity_x, velocity_y, velocity_z);
                            Ok((whole, at))
                        },
                    },
                },
            },
        }
    }

    open spec fn exact(v: Self::V) -> bool {
        &&& VarInt::exact(v.0)
        &&& i16::exact(v.1)
        &&& i16::exact(v.2)
        &&& i16::exact(v.3)
    }

    proof fn lemma_round_trip(v: Self::V, before: Seq<u8>, after: Seq<u8>) {
        <(VarInt, (i16, (i16, i16)))>::lemma_round_trip((v.0, (v.1, (v.2, v.3))), before, after);
    }

    fn decode_at(bytes: &[u8], at: usize) -> (r: Result<(Self, usize), DecodeError>) {
        let (entity_id, at) = VarInt::decode_at(bytes, at)?;
        let (velocity_x, at) = i16::decode_at(bytes, at)?;
        let (velocity_y, at) = i16::decode_at(bytes, at)?;
        let (velocity_z, at) = i16::decode_at(bytes, at)?;
        Ok((EntityVelocityPacket { entity_id, velocity_x, velocity_y, velocity_z }, at))
    }

    fn encode(&self, writer: &mut BytesMut) -> (r: Result<(), EncodeError>) {
        let start = writer.len();
        encode_field(&self.entity_id, writer, start)?;
        encode_field(&self.velocity_x, writer, start)?;
        encode_field(&self.velocity_y, writer, start)?;
        encode_field(&self.velocity_z, writer, start)?;
        Ok(())
    }
}

impl Packet for EntityVelocityPacket {}

/// Sent by the server when a list of entities is to be destroyed on the client.
pub struct DestroyEntitiesPacket {
    /// Number of elements in the following array.
    pub count: VarInt,
}

impl View for DestroyEntitiesPacket {
    type V = VarInt;

    open spec fn view(&self) -> Self::V {
        self.count@
    }
}

impl Encodable for DestroyEntitiesPacket {
    open spec fn wire(v: Self::V) -> Result<Seq<u8>, EncodeError> {
        VarInt::wire(v)
    }

    open spec fn parse(bytes: Seq<u8>, at: int) -> Result<(Self::V, int), DecodeError> {
        VarInt::parse(bytes, at)
    }

    open spec fn exact(v: Self::V) -> bool {
        VarInt::exact(v)
    }

    proof fn lemma_round_trip(v: Self::V, before: Seq<u8>, after: Seq<u8>) {
        VarInt::lemma_round_trip(v, before, after);
    }

    fn decode_at(bytes: &[u8], at: usize) -> (r: Result<(Self, usize), DecodeError>) {
        let (count, at) = VarInt::decode_at(bytes, at)?;
        Ok((DestroyEntitiesPacket { count }, at))
    }

    fn encode(&self, writer: &mut BytesMut) -> (r: Result<(), EncodeError>) {
        self.count.encode(writer)
    }
}

impl Packet for DestroyEntitiesPacket {}

/// This packet may be used to initialize an entity.
///
/// For player entities, either this packet or any move/look packet is sent every game tick. So the
/// meaning of this packet is basically that the entity did not move/look since the last such
/// packet.
pub struct EntityPacket {
    /// EID of the Entity.
    pub entity_id: VarInt,
}

impl View for EntityPacket {
    type V = VarInt;

    open spec fn view(&self) -> Self::V {
        self.entity_id@
    }
}

impl Encodable for EntityPacket {
    open spec fn wire(v: Self::V) -> Result<Seq<u8>, EncodeError> {
        VarInt::wire(v)
    }

    open spec fn parse(bytes: Seq<u8>, at: int) -> Result<(Self::V, int), DecodeError> {
        VarInt::parse(bytes, at)
    }

    open spec fn exact(v: Self::V) -> bool {
        VarInt::exact(v)
    }

    proof fn lemma_round_trip(v: Self::V, before: Seq<u8>, after: Seq<u8>) {
        VarInt::lemma_round_trip(v, before, after);
    }

    fn decode_at(bytes: &[u8], at: usize) -> (r: Result<(Self, usize), DecodeError>) {
        let (entity_id, at) = VarInt::decode_at(bytes, at)?;
        Ok((EntityPacket { entity_id }, at))
    }

    fn encode(&self, writer: &mut BytesMut) -> (r: Result<(), EncodeError>) {
        self.entity_id.encode(writer)
    }
}

impl Packet for EntityPacket {}

/// This packet is sent by the server when an entity moves less then 4 blocks; if an entity moves
/// more than 4 blocks Entity Teleport should be sent instead.
///
/// This packet allows at most four blocks movement in any direction, because byte range is from
/// -128 to 127.
pub struct EntityRelativeMovePacket {
    /// EID of the Entity.
    pub entity_id: VarInt,

    /// Change in X position as a Fixed-Point number
    pub delta_x: i8,

    /// Change in Y position as a Fixed-Point number
    pub delta_y: i8,

    /// Change in Z position as a Fixed-Point number
    pub delta_z: i8,
}

impl View for EntityRelativeMovePacket {
    type V = (VarInt, i8, i8, i8);

    open spec fn view(&self) -> Self::V {
        (self.entity_id@, self.delta_x@, self.delta_y@, self.delta_z@)
    }
}

impl Encodable for EntityRelativeMovePacket {
    open spec fn wire(v: Self::V) -> Result<Seq<u8>, EncodeError> {
        join(VarInt::wire(v.0), join(i8::wire(v.1), join(i8::wire(v.2), i8::wire(v.3))))
    }

    open spec fn parse(bytes: Seq<u8>, at: int) -> Result<(Self::V, int), DecodeError> {
        match VarInt::parse(bytes, at) {
            Err(e) => Err(e),
            Ok((entity_id, at)) => match i8::parse(bytes, at) {
                Err(e) => Err(e),
                Ok((delta_x, at)) => match i8::parse(bytes, at) {
                    Err(e) => Err(e),
                    Ok((delta_y, at)) => match i8::parse(bytes, at) {
                        Err(e) => Err(e),
                        Ok((delta_z, at)) => Ok(((entity_id, delta_x, delta_y, delta_z), at)),
                    },
                },
            },
        }
    }

    open spec fn exact(v: Self::V) -> bool {
        &&& VarInt::exact(v.0)
        &&& i8::exact(v.1)
        &&& i8::exact(v.2)
        &&& i8::exact(v.3)
    }

    proof fn lemma_round_trip(v: Self::V, before: Seq<u8>, after: Seq<u8>) {
        <(VarInt, (i8, (i8, i8)))>::lemma_round_trip((v.0, (v.1, (v.2, v.3))), before, after);
    }

    fn decode_at(bytes: &[u8], at: usize) -> (r: Result<(Self, usize), DecodeError>) {
        let (entity_id, at) = VarInt::decode_at(bytes, at)?;
        let (delta_x, at) = i8::decode_at(bytes, at)?;
        let (delta_y, at) = i8::decode_at(bytes, at)?;
        let (delta_z, at) = i8::decode_at(bytes, at)?;
        Ok((EntityRelativeMovePacket { entity_id, delta_x, delta_y, delta_z }, at))
    }

    fn encode(&self, writer: &mut BytesMut) -> (r: Result<(), EncodeError>) {
        let start = writer.len();
        encode_field(&self.entity_id, writer, start)?;
        encode_field(&self.delta_x, writer, start)?;
        encode_field(&self.delta_y, writer, start)?;
        encode_field(&self.delta_z, writer, start)?;
        Ok(())
    }
}

impl Packet for EntityRelativeMovePacket {}

/// This packet is sent by the server when an entity rotates.
pub struct EntityLookPacket {
    /// The EID of the Entity.
    pub entity_id: VarInt,
}

impl View for EntityLookPacket {
    type V = VarInt;

    open spec fn view(&self) -> Self::V {
        self.entity_id@
    }
}

impl Encodable for EntityLookPacket {
    open spec fn wire(v: Self::V) -> Result<Seq<u8>, EncodeError> {
        VarInt::wire(v)
    }

    open spec fn parse(bytes: Seq<u8>, at: int) -> Result<(Self::V, int), DecodeError> {
        VarInt::parse(bytes, at)
    }

    open spec fn exact(v: Self::V) -> bool {
        VarInt::exact(v)
    }

    proof fn lemma_round_trip(v: Self::V, before: Seq<u8>, after: Seq<u8>) {
        VarInt::lemma_round_trip(v, before, after);
    }

    fn decode_at(bytes: &[u8], at: usize) -> (r: Result<(Self, usize), DecodeError>) {
        let (entity_id, at) = VarInt::decode_at(bytes, at)?;
        Ok((EntityLookPacket { entity_id }, at))
    }

    fn encode(&self, writer: &mut BytesMut) -> (r: Result<(), EncodeError>) {
        self.entity_id.encode(writer)
    }
}

impl Packet for EntityLookPacket {}

/// This packet is sent by the server when an entity rotates and moves. Since a byte range is
/// limited from -128 to 127, and movement is offset of fixed-point numbers, this packet allows at
/// most four blocks movement in any direction. (-128/32 == -4)
pub struct EntityLookAndRelativeMovePacket {
    /// The EID of the Entity.
    pub entity_id: VarInt,

    /// Change in X position as a Fixed-Point number.
    pub delta_x: i8,

    /// Change in Y position as a Fixed-Point number.
    pub delta_y: i8,

    /// Change in Z position as a Fixed-Point number.
    pub delta_z: i8,
}

impl View for EntityLookAndRelativeMovePacket {
    type V = (VarInt, i8, i8, i8);

    open spec fn view(&self) -> Self::V {
        (self.entity_id@, self.delta_x@, self.delta_y@, self.delta_z@)
    }
}

impl Encodable for EntityLookAndRelativeMovePacket {
    open spec fn wire(v: Self::V) -> Result<Seq<u8>, EncodeError> {
        join(VarInt::wire(v.0), join(i8::wire(v.1), join(i8::wire(v.2), i8::wire(v.3))))
    }

    open spec fn parse(bytes: Seq<u8>, at: int) -> Result<(Self::V, int), DecodeError> {
        match VarInt::parse(bytes, at) {
            Err(e) => Err(e),
            Ok((entity_id, at)) => match i8::parse(bytes, at) {
                Err(e) => Err(e),
                Ok((delta_x, at)) => match i8::parse(bytes, at) {
                    Err(e) => Err(e),
                    Ok((delta_y, at)) => match i8::parse(bytes, at) {
                        Err(e) => Err(e),
                        Ok((delta_z, at)) => Ok(((entity_id, delta_x, delta_y, delta_z), at)),
                    },
                },
            },
        }
    }

    open spec fn exact(v: Self::V) -> bool {
        &&& VarInt::exact(v.0)
        &&& i8::exact(v.1)
        &&& i8::exact(v.2)
        &&& i8::exact(v.3)
    }

    proof fn lemma_round_trip(v: Self::V, before: Seq<u8>, after: Seq<u8>) {
        <(VarInt, (i8, (i8, i8)))>::lemma_round_trip((v.0, (v.1, (v.2, v.3))), before, after);
    }

    fn decode_at(bytes: &[u8], at: usize) -> (r: Result<(Self, usize), DecodeError>) {
        let (entity_id, at) = VarInt::decode_at(bytes, at)?;
        let (delta_x, at) = i8::decode_at(bytes, at)?;
        let (delta_y, at) = i8::decode_at(bytes, at)?;
        let (delta_z, at) = i8::decode_at(bytes, at)?;
        Ok((EntityLookAndRelativeMovePacket { entity_id, delta_x, delta_y, delta_z }, at))
    }

    fn encode(&self, writer: &mut BytesMut) -> (r: Result<(), EncodeError>) {
        let start = writer.len();
        encode_field(&self.entity_id, writer, start)?;
        encode_field(&self.delta_x, writer, start)?;
        encode_field(&self.delta_y, writer, start)?;
        encode_field(&self.delta_z, writer, start)?;
        Ok(())
    }
}

impl Packet for EntityLookAndRelativeMovePacket {}

/// This packet is sent by the server when an entity moves more than 4 blocks.
pub struct EntityTeleportPacket {
    /// The EID of the Entity.
    pub entity_id: VarInt,

    /// Player X as a Fixed-Point number.
    pub x: i8,

    /// Player Y as a Fixed-Point number.
    pub y: i8,

    /// Player Z as a Fixed-Point number.
    pub z: i8,
}

impl View for EntityTeleportPacket {
    type V = (VarInt, i8, i8, i8);

    open spec fn view(&self) -> Self::V {
        (self.entity_id@, self.x@, self.y@, self.z@)
    }
}

impl Encodable for EntityTeleportPacket {
    open spec fn wire(v: Self::V) -> Result<Seq<u8>, EncodeError> {
        join(VarInt::wire(v.0), join(i8::wire(v.1), join(i8::wire(v.2), i8::wire(v.3))))
    }

    open spec fn parse(bytes: Seq<u8>, at: int) -> Result<(Self::V, int), DecodeError> {
        match VarInt::parse(bytes, at) {
            Err(e) => Err(e),
            Ok((entity_id, at)) => match i8::parse(bytes, at) {
                Err(e) => Err(e),
                Ok((x, at)) => match i8::parse(bytes, at) {
                    Err(e) => Err(e),
                    Ok((y, at)) => match i8::parse(bytes, at) {
                        Err(e) => Err(e),
                        Ok((z, at)) => Ok(((entity_id, x, y, z), at)),
                    },
                },
            },
        }
    }

    open spec fn exact(v: Self::V) -> bool {
        &&& VarInt::exact(v.0)
        &&& i8::exact(v.1)
        &&& i8::exact(v.2)
        &&& i8::exact(v.3)
    }

    proof fn lemma_round_trip(v: Self::V, before: Seq<u8>, after: Seq<u8>) {
        <(VarInt, (i8, (i8, i8)))>::lemma_round_trip((v.0, (v.1, (v.2, v.3))), before, after);
    }

    fn decode_at(bytes: &[u8], at: usize) -> (r: Result<(Self, usize), DecodeError>) {
        let (entity_id, at) = VarInt::decode_at(bytes, at)?;
        let (x, at) = i8::decode_at(bytes, at)?;
        let (y, at) = i8::decode_at(bytes, at)?;
        let (z, at) = i8::decode_at(bytes, at)?;
        Ok((EntityTeleportPacket { entity_id, x, y, z }, at))
    }

    fn encode(&self, writer: &mut BytesMut) -> (r: Result<(), EncodeError>) {
        let start = writer.len();
        encode_field(&self.entity_id, writer, start)?;
        encode_field(&self.x, writer, start)?;
        encode_field(&self.y, writer, start)?;
        encode_field(&self.z, writer, start)?;
        Ok(())
    }
}

impl Packet for EntityTeleportPacket {}

/// Changes the direction an entity's head is facing.
pub struct EntityHeadLookPacket {
    /// The EID of the Entity.
    pub entity_id: VarInt,

    /// New angle, not a delta
    pub yaw: Angle,
}

impl View for EntityHeadLookPacket {
    type V = (VarInt, Angle);

    open spec fn view(&self) -> Self::V {
        (self.entity_id@, self.yaw@)
    }
}

impl Encodable for EntityHeadLookPacket {
    open spec fn wire(v: Self::V) -> Result<Seq<u8>, EncodeError> {
        join(VarInt::wire(v.0), Angle::wire(v.1))
    }

    open spec fn parse(bytes: Seq<u8>, at: int) -> Result<(Self::V, int), DecodeError> {
        match VarInt::parse(bytes, at) {
            Err(e) => Err(e),
            Ok((entity_id, at)) => match Angle::parse(bytes, at) {
                Err(e) => Err(e),
                Ok((yaw, at)) => Ok(((entity_id, yaw), at)),
            },
        }
    }

    open spec fn exact(v: Self::V) -> bool {
        &&& VarInt::exact(v.0)
        &&& Angle::exact(v.1)
    }

    proof fn lemma_round_trip(v: Self::V, before: Seq<u8>, after: Seq<u8>) {
        <(VarInt, Angle)>::lemma_round_trip((v.0, v.1), before, after);
    }

    fn decode_at(bytes: &[u8], at: usize) -> (r: Result<(Self, usize), DecodeError>) {
        let (entity_id, at) = VarInt::decode_at(bytes, at)?;
        let (yaw, at) = Angle::decode_at(bytes, at)?;
        Ok((EntityHeadLookPacket { entity_id, yaw }, at))
    }

    fn encode(&self, writer: &mut BytesMut) -> (r: Result<(), EncodeError>) {
        let start = writer.len();
        encode_field(&self.entity_id, writer, start)?;
        encode_field(&self.yaw, writer, start)?;
        Ok(())
    }
}

impl Packet for EntityHeadLookPacket {}

/// Updates an Entity's status.
///
/// # Entity Status Table
/// | Entity Status | Meaning
/// |---------------|--------------------------------------------------------------------------|
/// | 1             | Sent when resetting a mob spawn minecart's timer / Rabbit jump animation |
/// | 2             | Living Entity hurt                                                       |
/// | 3             | Living Entity dead                                                       |
/// | 4             | Iron Golem throwing up arms                                              |
/// | 6             | Wolf/Ocelot/Horse taming - Spawn "heart" particles                       |
/// | 7             | Wolf/Ocelot/Horse tamed - Spawn "smoke" particles                        |
/// | 8             | Wolf shaking water - Trigger the shaking animation                       |
/// | 9             | (of self) Eating accepted by server                                      |
/// | 10            | Sheep eating grass                                                       |
/// | 10            | Play TNT ignite sound                                                    |
/// | 11            | Iron Golem handing over a rose                                           |
/// | 12            | Villager mating - Spawn "heart" particles                                |
/// | 13            | Spawn particles indicating that a villager is angry and seeking revenge  |
/// | 14            | Spawn happy particles near a villager                                    |
/// | 15            | Witch animation - Spawn "magic" particles                                |
/// | 16            | Play zombie converting into a villager sound                             |
/// | 17            | Firework exploding                                                       |
/// | 18            | Animal in love (ready to mate) - Spawn "heart" particles                 |
/// | 19            | Reset squid rotation                                                     |
/// | 20            | Spawn explosion particle - works for some living entities                |
/// | 21            | Play guardian sound - works for only for guardians                       |
/// | 22            | Enables reduced debug for players                                        |
/// | 23            | Disables reduced debug for players
pub struct EntityStatusPacket {
    /// The EID of the Entity.
    pub entity_id: i32,

    /// The status value.
    pub status: i8,
}

impl View for EntityStatusPacket {
    type V = (i32, i8);

    open spec fn view(&self) -> Self::V {
        (self.entity_id@, self.status@)
    }
}

impl Encodable for EntityStatusPacket {
    open spec fn wire(v: Self::V) -> Result<Seq<u8>, EncodeError> {
        join(i32::wire(v.0), i8::wire(v.1))
    }

    open spec fn parse(bytes: Seq<u8>, at: int) -> Result<(Self::V, int), DecodeError> {
        match i32::parse(bytes, at) {
            Err(e) => Err(e),
            Ok((entity_id, at)) => match i8::parse(bytes, at) {
                Err(e) => Err(e),
                Ok((status, at)) => Ok(((entity_id, status), at)),
            },
        }
    }

    open spec fn exact(v: Self::V) -> bool {
        &&& i32::exact(v.0)
        &&& i8::exact(v.1)
    }

    proof fn lemma_round_trip(v: Self::V, before: Seq<u8>, after: Seq<u8>) {
        <(i32, i8)>::lemma_round_trip((v.0, v.1), before, after);
    }

    fn decode_at(bytes: &[u8], at: usize) -> (r: Result<(Self, usize), DecodeError>) {
        let (entity_id, at) = i32::decode_at(bytes, at)?;
        let (status, at) = i8::decode_at(bytes, at)?;
        Ok((EntityStatusPacket { entity_id, status }, at))
    }

    fn encode(&self, writer: &mut BytesMut) -> (r: Result<(), EncodeError>) {
        let start = writer.len();
        encode_field(&self.entity_id, writer, start)?;
        encode_field(&self.status, writer, start)?;
        Ok(())
    }
}

impl Packet for EntityStatusPacket {}

/// This packet is sent when a player has been attached to an entity (e.g. Minecart.)
pub struct AttachEntityPacket {
    /// Attached Entity's EID.
    pub entity_id: i32,

    /// EID of the Vehicle. Set to -1 to detach.
    pub vehicle_id: i32,
}

impl View for AttachEntityPacket {
    type V = (i32, i32);

    open spec fn view(&self) -> Self::V {
        (self.entity_id@, self.vehicle_id@)
    }
}

impl Encodable for AttachEntityPacket {
    open spec fn wire(v: Self::V) -> Result<Seq<u8>, EncodeError> {
        join(i32::wire(v.0), i32::wire(v.1))
    }

    open spec fn parse(bytes: Seq<u8>, at: int) -> Result<(Self::V, int), DecodeError> {
        match i32::parse(bytes, at) {
            Err(e) => Err(e),
            Ok((entity_id, at)) => match i32::parse(bytes, at) {
                Err(e) => Err(e),
                Ok((vehicle_id, at)) => Ok(((entity_id, vehicle_id), at)),
            },
        }
    }

    open spec fn exact(v: Self::V) -> bool {
        &&& i32::exact(v.0)
        &&& i32::exact(v.1)
    }

    proof fn lemma_round_trip(v: Self::V, before: Seq<u8>, after: Seq<u8>) {
        <(i32, i32)>::lemma_round_trip((v.0, v.1), before, after);
    }

    fn decode_at(bytes: &[u8], at: usize) -> (r: Result<(Self, usize), DecodeError>) {
        let (entity_id, at) = i32::decode_at(bytes, at)?;
        let (vehicle_id, at) = i32::decode_at(bytes, at)?;
        Ok((AttachEntityPacket { entity_id, vehicle_id }, at))
    }

    fn encode(&self, writer: &mut BytesMut) -> (r: Result<(), EncodeError>) {
        let start = writer.len();
        encode_field(&self.entity_id, writer, start)?;
        encode_field(&self.vehicle_id, writer, start)?;
        Ok(())
    }
}

impl Packet for AttachEntityPacket {}

/// Updates one or more metadata properties for an existing entity. Any properties not included in
/// the Metadata field are left unchanged.
pub struct EntityMetadataPacket {
    /// EID of the Entity.
    pub entity_id: VarInt,
}

impl View for EntityMetadataPacket {
    type V = VarInt;

    open spec fn view(&self) -> Self::V {
        self.entity_id@
    }
}

impl Encodable for EntityMetadataPacket {
    open spec fn wire(v: Self::V) -> Result<Seq<u8>, EncodeError> {
        VarInt::wire(v)
    }

    open spec fn parse(bytes: Seq<u8>, at: int) -> Result<(Self::V, int), DecodeError> {
        VarInt::parse(bytes, at)
    }

    open spec fn exact(v: Self::V) -> bool {
        VarInt::exact(v)
    }

    proof fn lemma_round_trip(v: Self::V, before: Seq<u8>, after: Seq<u8>) {
        VarInt::lemma_round_trip(v, before, after);
    }

    fn decode_at(bytes: &[u8], at: usize) -> (r: Result<(Self, usize), DecodeError>) {
        let (entity_id, at) = VarInt::decode_at(bytes, at)?;
        Ok((EntityMetadataPacket { entity_id }, at))
    }

    fn encode(&self, writer: &mut BytesMut) -> (r: Result<(), EncodeError>) {
        self.entity_id.encode(writer)
    }
}

impl Packet for EntityMetadataPacket {}

/// Puts an effect on an entity.
pub struct EntityEffectPacket {
    /// EID of the Entity.
    pub entity_id: VarInt,

    /// ID of the Effect.
    pub effect_id: i8,

    /// Notchian client displays effect level as Amplifier + 1.
    pub amplifier: i8,

    /// Duration in seconds.
    pub duration: VarInt,
}

impl View for EntityEffectPacket {
    type V = (VarInt, i8, i8, VarInt);

    open spec fn view(&self) -> Self::V {
        (self.entity_id@, self.effect_id@, self.amplifier@, self.duration@)
    }
}

impl Encodable for EntityEffectPacket {
    open spec fn wire(v: Self::V) -> Result<Seq<u8>, EncodeError> {
        join(VarInt::wire(v.0), join(i8::wire(v.1), join(i8::wire(v.2), VarInt::wire(v.3))))
    }

    open spec fn parse(bytes: Seq<u8>, at: int) -> Result<(Self::V, int), DecodeError> {
        match VarInt::parse(bytes, at) {
            Err(e) => Err(e),
            Ok((entity_id, at)) => match i8::parse(bytes, at) {
                Err(e) => Err(e),
                Ok((effect_id, at)) => match i8::parse(bytes, at) {
                    Err(e) => Err(e),
                    Ok((amplifier, at)) => match VarInt::parse(bytes, at) {
                        Err(e) => Err(e),
                        Ok((duration, at)) => Ok(((entity_id, effect_id, amplifier, duration), at)),
                    },
                },
            },
        }
    }

    open spec fn exact(v: Self::V) -> bool {
        &&& VarInt::exact(v.0)
        &&& i8::exact(v.1)
        &&& i8::exact(v.2)
        &&& VarInt::exact(v.3)
    }

    proof fn lemma_round_trip(v: Self::V, before: Seq<u8>, after: Seq<u8>) {
        <(VarInt, (i8, (i8, VarInt)))>::lemma_round_trip((v.0, (v.1, (v.2, v.3))), before, after);
    }

    fn decode_at(bytes: &[u8], at: usize) -> (r: Result<(Self, usize), DecodeError>) {
        let (entity_id, at) = VarInt::decode_at(bytes, at)?;
        let (effect_id, at) = i8::decode_at(bytes, at)?;
        let (amplifier, at) = i8::decode_at(bytes, at)?;
        let (duration, at) = VarInt::decode_at(bytes, at)?;
        Ok((EntityEffectPacket { entity_id, effect_id, amplifier, duration }, at))
    }

    fn encode(&self, writer: &mut BytesMut) -> (r: Result<(), EncodeError>) {
        let start = writer.len();
        encode_field(&self.entity_id, writer, start)?;
        encode_field(&self.effect_id, writer, start)?;
        encode_field(&self.amplifier, writer, start)?;
        encode_field(&self.duration, writer, start)?;
        Ok(())
    }
}

impl Packet for EntityEffectPacket {}

/// Takes an effect off an entity.
pub struct RemoveEntityEffectPacket {
    /// EID of the Entity.
    pub entity_id: VarInt,

    /// ID of the Effect.
    pub effect_id: i8,
}

impl View for RemoveEntityEffectPacket {
    type V = (VarInt, i8);

    open spec fn view(&self) -> Self::V {
        (self.entity_id@, self.effect_id@)
    }
}

impl Encodable for RemoveEntityEffectPacket {
    open spec fn wire(v: Self::V) -> Result<Seq<u8>, EncodeError> {
        join(VarInt::wire(v.0), i8::wire(v.1))
    }

    open spec fn parse(bytes: Seq<u8>, at: int) -> Result<(Self::V, int), DecodeError> {
        match VarInt::parse(bytes, at) {
            Err(e) => Err(e),
            Ok((entity_id, at)) => match i8::parse(bytes, at) {
                Err(e) => Err(e),
                Ok((effect_id, at)) => Ok(((entity_id, effect_id), at)),
            },
        }
    }

    open spec fn exact(v: Self::V) -> bool {
        &&& VarInt::exact(v.0)
        &&& i8::exact(v.1)
    }

    proof fn lemma_round_trip(v: Self::V, before: Seq<u8>, after: Seq<u8>) {
        <(VarInt, i8)>::lemma_round_trip((v.0, v.1), before, after);
    }

    fn decode_at(bytes: &[u8], at: usize) -> (r: Result<(Self, usize), DecodeError>) {
        let (entity_id, at) = VarInt::decode_at(bytes, at)?;
        let (effect_id, at) = i8::decode_at(bytes, at)?;
        Ok((RemoveEntityEffectPacket { entity_id, effect_id }, at))
    }

    fn encode(&self, writer: &mut BytesMut) -> (r: Result<(), EncodeError>) {
        let start = writer.len();
        encode_field(&self.entity_id, writer, start)?;
        encode_field(&self.effect_id, writer, start)?;
        Ok(())
    }
}

impl Packet for RemoveEntityEffectPacket {}

/// Sent by the server when the client should change experience levels.
pub struct SetExperiencePacket {
    /// Between 0 and 1.
    pub bar: Float,

    /// The level.
    pub level: VarInt,

    /// See [Experience#Leveling](https://minecraft.fandom.com/wiki/Experience%23Leveling_up) up on
    /// the Minecraft Wiki for Total Experience to Level conversion.
    pub total_exp: VarInt,
}

impl View for SetExperiencePacket {
    type V = (Float, VarInt, VarInt);

    open spec fn view(&self) -> Self::V {
        (self.bar@, self.level@, self.total_exp@)
    }
}

impl Encodable for SetExperiencePacket {
    open spec fn wire(v: Self::V) -> Result<Seq<u8>, EncodeError> {
        join(Float::wire(v.0), join(VarInt::wire(v.1), VarInt::wire(v.2)))
    }

    open spec fn parse(bytes: Seq<u8>, at: int) -> Result<(Self::V, int), DecodeError> {
        match Float::parse(bytes, at) {
            Err(e) => Err(e),
            Ok((bar, at)) => match VarInt::parse(bytes, at) {
                Err(e) => Err(e),
                Ok((level, at)) => match VarInt::parse(bytes, at) {
                    Err(e) => Err(e),
                    Ok((total_exp, at)) => Ok(((bar, level, total_exp), at)),
                },
            },
        }
    }

    open spec fn exact(v: Self::V) -> bool {
        &&& Float::exact(v.0)
        &&& VarInt::exact(v.1)
        &&& VarInt::exact(v.2)
    }

    proof fn lemma_round_trip(v: Self::V, before: Seq<u8>, after: Seq<u8>) {
        <(Float, (VarInt, VarInt))>::lemma_round_trip((v.0, (v.1, v.2)), before, after);
    }

    fn decode_at(bytes: &[u8], at: usize) -> (r: Result<(Self, usize), DecodeError>) {
        let (bar, at) = Float::decode_at(bytes, at)?;
        let (level, at) = VarInt::decode_at(bytes, at)?;
        let (total_exp, at) = VarInt::decode_at(bytes, at)?;
        Ok((SetExperiencePacket { bar, level, total_exp }, at))
    }

    fn encode(&self, writer: &mut BytesMut) -> (r: Result<(), EncodeError>) {
        let start = writer.len();
        encode_field(&self.bar, writer, start)?;
        encode_field(&self.level, writer, start)?;
        encode_field(&self.total_exp, writer, start)?;
        Ok(())
    }
}

impl Packet for SetExperiencePacket {}

/// Sets attributes on the given entity.
///
/// # Property Table
/// | Key                              Default              Min          Max                  Label                       |
/// |--------------------------------|--------------------|------------|--------------------|-----------------------------|
/// | generic.maxHealth              | 20.0               | 0.0        | Double.MaxValue    | Max Health                  |
/// | generic.followRange            | 32.0               | 0.0        | 2048.0             | Follow Range                |
/// | generic.knockbackResistance    | 0.0                | 0.0        | 1.0                | Knockback Resistance        |
/// | generic.movementSpeed          | 0.699999988079071  | 0.0        | Double.MaxValue    | Movement Speed              |
/// | generic.attackDamage           | 2.0                | 0.0        | Double.MaxValue    |                             |
/// | horse.jumpStrength             | 0.7                | 0.0        | 2.0                | Jump Strength               |
/// | zombie.spawnReinforcements     | 0.0                | 0.0        | 1.0                | Spawn Reinforcements Chance |
pub struct EntityPropertiesPacket {
    /// EID of the Entity.
    pub entity_id: VarInt,

    /// Number of elements in the following array.
    pub properties_amount: i32,
}

impl View for EntityPropertiesPacket {
    type V = (VarInt, i32);

    open spec fn view(&self) -> Self::V {
        (self.entity_id@, self.properties_amount@)
    }
}

impl Encodable for EntityPropertiesPacket {
    open spec fn wire(v: Self::V) -> Result<Seq<u8>, EncodeError> {
        join(VarInt::wire(v.0), i32::wire(v.1))
    }

    open spec fn parse(bytes: Seq<u8>, at: int) -> Result<(Self::V, int), DecodeError> {
        match VarInt::parse(bytes, at) {
            Err(e) => Err(e),
            Ok((entity_id, at)) => match i32::parse(bytes, at) {
                Err(e) => Err(e),
                Ok((properties_amount, at)) => Ok(((entity_id, properties_amount), at)),
            },
        }
    }

    open spec fn exact(v: Self::V) -> bool {
        &&& VarInt::exact(v.0)
        &&& i32::exact(v.1)
    }

    proof fn lemma_round_trip(v: Self::V, before: Seq<u8>, after: Seq<u8>) {
        <(VarInt, i32)>::lemma_round_trip((v.0, v.1), before, after);
    }

    fn decode_at(bytes: &[u8], at: usize) -> (r: Result<(Self, usize), DecodeError>) {
        let (entity_id, at) = VarInt::decode_at(bytes, at)?;
        let (properties_amount, at) = i32::decode_at(bytes, at)?;
        Ok((EntityPropertiesPacket { entity_id, properties_amount }, at))
    }

    fn encode(&self, writer: &mut BytesMut) -> (r: Result<(), EncodeError>) {
        let start = writer.len();
        encode_field(&self.entity_id, writer, start)?;
        encode_field(&self.properties_amount, writer, start)?;
        Ok(())
    }
}

impl Packet for EntityPropertiesPacket {}

/// Chunks are not unloaded by the client automatically. To unload chunks, send this packet with
/// Ground-Up Continuous=true and no 16^3 chunks (eg. Primary Bit Mask=0). The server does not send
/// skylight information for nether-chunks, it's up to the client to know if the player is
/// currently in the nether. You can also infer this information from the primary bitmask and the
/// amount of uncompressed bytes sent.
pub struct ChunkDataPacket {
    /// Chunk X coordinate.
    pub chunk_x: i32,

    /// Chunk Z coordinate.
    pub chunk_z: i32,

    /// Bitmask with 1 for every 16x16x16 section whose data follows in the compressed data.
    pub primary_bit_mask: u16,

    /// Size of Data.
    pub size: VarInt,
}

impl View for ChunkDataPacket {
    type V = (i32, i32, u16, VarInt);

    open spec fn view(&self) -> Self::V {
        (self.chunk_x@, self.chunk_z@, self.primary_bit_mask@, self.size@)
    }
}

impl Encodable for ChunkDataPacket {
    open spec fn wire(v: Self::V) -> Result<Seq<u8>, EncodeError> {
        join(i32::wire(v.0), join(i32::wire(v.1), join(u16::wire(v.2), VarInt::wire(v.3))))
    }

    open spec fn parse(bytes: Seq<u8>, at: int) -> Result<(Self::V, int), DecodeError> {
        match i32::parse(bytes, at) {
            Err(e) => Err(e),
            Ok((chunk_x, at)) => match i32::parse(bytes, at) {
                Err(e) => Err(e),
                Ok((chunk_z, at)) => match u16::parse(bytes, at) {
                    Err(e) => Err(e),
                    Ok((primary_bit_mask, at)) => match VarInt::parse(bytes, at) {
                        Err(e) => Err(e),
                        Ok((size, at)) => Ok(((chunk_x, chunk_z, primary_bit_mask, size), at)),
                    },
                },
            },
        }
    }

    open spec fn exact(v: Self::V) -> bool {
        &&& i32::exact(v.0)
        &&& i32::exact(v.1)
        &&& u16::exact(v.2)
        &&& VarInt::exact(v.3)
    }

    proof fn lemma_round_trip(v: Self::V, before: Seq<u8>, after: Seq<u8>) {
        <(i32, (i32, (u16, VarInt)))>::lemma_round_trip((v.0, (v.1, (v.2, v.3))), before, after);
    }

    fn decode_at(bytes: &[u8], at: usize) -> (r: Result<(Self, usize), DecodeError>) {
        let (chunk_x, at) = i32::decode_at(bytes, at)?;
        let (chunk_z, at) = i32::decode_at(bytes, at)?;
        let (primary_bit_mask, at) = u16::decode_at(bytes, at)?;
        let (size, at) = VarInt::decode_at(bytes, at)?;
        Ok((ChunkDataPacket { chunk_x, chunk_z, primary_bit_mask, size }, at))
    }

    fn encode(&self, writer: &mut BytesMut) -> (r: Result<(), EncodeError>) {
        let start = writer.len();
        encode_field(&self.chunk_x, writer, start)?;
        encode_field(&self.chunk_z, writer, start)?;
        encode_field(&self.primary_bit_mask, writer, start)?;
        encode_field(&self.size, writer, start)?;
        Ok(())
    }
}

impl Packet for ChunkDataPacket {}

/// Fired whenever 2 or more blocks are changed within the render distance.
pub struct MultiBlockChangePacket {
    /// Chunk X coordinate.
    pub chunk_x: i32,

    /// Chunk Z coordinate.
    pub chunk_z: i32,

    /// Number of elements in the following array, i.e. the number of blocks affected.
    pub record_count: VarInt,
}

impl View for MultiBlockChangePacket {
    type V = (i32, i32, VarInt);

    open spec fn view(&self) -> Self::V {
        (self.chunk_x@, self.chunk_z@, self.record_count@)
    }
}

impl Encodable for MultiBlockChangePacket {
    open spec fn wire(v: Self::V) -> Result<Seq<u8>, EncodeError> {
        join(i32::wire(v.0), join(i32::wire(v.1), VarInt::wire(v.2)))
    }

    open spec fn parse(bytes: Seq<u8>, at: int) -> Result<(Self::V, int), DecodeError> {
        match i32::parse(bytes, at) {
            Err(e) => Err(e),
            Ok((chunk_x, at)) => match i32::parse(bytes, at) {
                Err(e) => Err(e),
                Ok((chunk_z, at)) => match VarInt::parse(bytes, at) {
                    Err(e) => Err(e),
                    Ok((record_count, at)) => Ok(((chunk_x, chunk_z, record_count), at)),
                },
            },
        }
    }

    open spec fn exact(v: Self::V) -> bool {
        &&& i32::exact(v.0)
        &&& i32::exact(v.1)
        &&& VarInt::exact(v.2)
    }

    proof fn lemma_round_trip(v: Self::V, before: Seq<u8>, after: Seq<u8>) {
        <(i32, (i32, VarInt))>::lemma_round_trip((v.0, (v.1, v.2)), before, after);
    }

    fn decode_at(bytes: &[u8], at: usize) -> (r: Result<(Self, usize), DecodeError>) {
        let (chunk_x, at) = i32::decode_at(bytes, at)?;
        let (chunk_z, at) = i32::decode_at(bytes, at)?;
        let (record_count, at) = VarInt::decode_at(bytes, at)?;
        Ok((MultiBlockChangePacket { chunk_x, chunk_z, record_count }, at))
    }

    fn encode(&self, writer: &mut BytesMut) -> (r: Result<(), EncodeError>) {
        let start = writer.len();
        encode_field(&self.chunk_x, writer, start)?;
        encode_field(&self.chunk_z, writer, start)?;
        encode_field(&self.record_count, writer, start)?;
        Ok(())
    }
}

impl Packet for MultiBlockChangePacket {}

/// Fired whenever a block is changed within the render distance.
pub struct BlockChangePacket {
    /// Block Coordinates.
    pub location: Position,

    /// The new block state ID for the block as given in the global palette (When reading data:
    /// `type = id >> 4`, `meta = id & 15`, when writing data: `id = type << 4 | (meta & 15))`
    pub block_id: VarInt,
}

impl View for BlockChangePacket {
    type V = (Position, VarInt);

    open spec fn view(&self) -> Self::V {
        (self.location@, self.block_id@)
    }
}

impl Encodable for BlockChangePacket {
    open spec fn wire(v: Self::V) -> Result<Seq<u8>, EncodeError> {
        join(Position::wire(v.0), VarInt::wire(v.1))
    }

    open spec fn parse(bytes: Seq<u8>, at: int) -> Result<(Self::V, int), DecodeError> {
        match Position::parse(bytes, at) {
            Err(e) => Err(e),
            Ok((location, at)) => match VarInt::parse(bytes, at) {
                Err(e) => Err(e),
                Ok((block_id, at)) => Ok(((location, block_id), at)),
            },
        }
    }

    open spec fn exact(v: Self::V) -> bool {
        &&& Position::exact(v.0)
        &&& VarInt::exact(v.1)
    }

    proof fn lemma_round_trip(v: Self::V, before: Seq<u8>, after: Seq<u8>) {
        <(Position, VarInt)>::lemma_round_trip((v.0, v.1), before, after);
    }

    fn decode_at(bytes: &[u8], at: usize) -> (r: Result<(Self, usize), DecodeError>) {
        let (location, at) = Position::decode_at(bytes, at)?;
        let (block_id, at) = VarInt::decode_at(bytes, at)?;
        Ok((BlockChangePacket { location, block_id }, at))
    }

    fn encode(&self, writer: &mut BytesMut) -> (r: Result<(), EncodeError>) {
        let start = writer.len();
        encode_field(&self.location, writer, start)?;
        encode_field(&self.block_id, writer, start)?;
        Ok(())
    }
}

impl Packet for BlockChangePacket {}

/// This packet is used for a number of things:
///
/// - Chests opening and closing
/// - Pistons pushing and pulling
/// - Note blocks playing
/// - Updating beacons
pub struct BlockActionPacket {
    /// Block coordinates.
    pub location: Position,

    /// Varies depending on block - see Block Actions.
    pub byte_1: u8,

    /// Varies depending on block - see Block Actions.
    pub byte_2: u8,

    /// The block type ID for the block, not including metadata/damage value.
    pub block_type: VarInt,
}

impl View for BlockActionPacket {
    type V = (Position, u8, u8, VarInt);

    open spec fn view(&self) -> Self::V {
        (self.location@, self.byte_1@, self.byte_2@, self.block_type@)
    }
}

impl Encodable for BlockActionPacket {
    open spec fn wire(v: Self::V) -> Result<Seq<u8>, EncodeError> {
        join(Position::wire(v.0), join(u8::wire(v.1), join(u8::wire(v.2), VarInt::wire(v.3))))
    }

    open spec fn parse(bytes: Seq<u8>, at: int) -> Result<(Self::V, int), DecodeError> {
        match Position::parse(bytes, at) {
            Err(e) => Err(e),
            Ok((location, at)) => match u8::parse(bytes, at) {
                Err(e) => Err(e),
                Ok((byte_1, at)) => match u8::parse(bytes, at) {
                    Err(e) => Err(e),
                    Ok((byte_2, at)) => match VarInt::parse(bytes, at) {
                        Err(e) => Err(e),
                        Ok((block_type, at)) => Ok(((location, byte_1, byte_2, block_type), at)),
                    },
                },
            },
        }
    }

    open spec fn exact(v: Self::V) -> bool {
        &&& Position::exact(v.0)
        &&& u8::exact(v.1)
        &&& u8::exact(v.2)
        &&& VarInt::exact(v.3)
    }

    proof fn lemma_round_trip(v: Self::V, before: Seq<u8>, after: Seq<u8>) {
        <(Position, (u8, (u8, VarInt)))>::lemma_round_trip((v.0, (v.1, (v.2, v.3))), before, after);
    }

    fn decode_at(bytes: &[u8], at: usize) -> (r: Result<(Self, usize), DecodeError>) {
        let (location, at) = Position::decode_at(bytes, at)?;
        let (byte_1, at) = u8::decode_at(bytes, at)?;
        let (byte_2, at) = u8::decode_at(bytes, at)?;
        let (block_type, at) = VarInt::decode_at(bytes, at)?;
        Ok((BlockActionPacket { location, byte_1, byte_2, block_type }, at))
    }

    fn encode(&self, writer: &mut BytesMut) -> (r: Result<(), EncodeError>) {
        let start = writer.len();
        encode_field(&self.location, writer, start)?;
        encode_field(&self.byte_1, writer, start)?;
        encode_field(&self.byte_2, writer, start)?;
        encode_field(&self.block_type, writer, start)?;
        Ok(())
    }
}

impl Packet for BlockActionPacket {}

/// 0-9 are the displayable destroy stages and each other number means that there is no animation
/// on this coordinate.
///
/// You can also set an animation to air! The animation will still be visible.
///
/// If you need to display several break animations at the same time you have to give each of them
/// a unique Entity ID.
///
/// Also if you set the coordinates to a special block like water etc. it won't show the actual
/// break animation but some other interesting effects. For example, water will lose its
/// transparency.
pub struct BlockBreakAnimationPacket {
    /// EID for the animation.
    pub entity_id: VarInt,

    /// Block position.
    pub location: Position,

    /// 0-9 to set it, any other value to remove it.
    pub destroy_stage: i8,
}

impl View for BlockBreakAnimationPacket {
    type V = (VarInt, Position, i8);

    open spec fn view(&self) -> Self::V {
        (self.entity_id@, self.location@, self.destroy_stage@)
    }
}

impl Encodable for BlockBreakAnimationPacket {
    open spec fn wire(v: Self::V) -> Result<Seq<u8>, EncodeError> {
        join(VarInt::wire(v.0), join(Position::wire(v.1), i8::wire(v.2)))
    }

    open spec fn parse(bytes: Seq<u8>, at: int) -> Result<(Self::V, int), DecodeError> {
        match VarInt::parse(bytes, at) {
            Err(e) => Err(e),
            Ok((entity_id, at)) => match Position::parse(bytes, at) {
                Err(e) => Err(e),
                Ok((location, at)) => match i8::parse(bytes, at) {
                    Err(e) => Err(e),
                    Ok((destroy_stage, at)) => Ok(((entity_id, location, destroy_stage), at)),
                },
            },
        }
    }

    open spec fn exact(v: Self::V) -> bool {
        &&& VarInt::exact(v.0)
        &&& Position::exact(v.1)
        &&& i8::exact(v.2)
    }

    proof fn lemma_round_trip(v: Self::V, before: Seq<u8>, after: Seq<u8>) {
        <(VarInt, (Position, i8))>::lemma_round_trip((v.0, (v.1, v.2)), before, after);
    }

    fn decode_at(bytes: &[u8], at: usize) -> (r: Result<(Self, usize), DecodeError>) {
        let (entity_id, at) = VarInt::decode_at(bytes, at)?;
        let (location, at) = Position::decode_at(bytes, at)?;
        let (destroy_stage, at) = i8::decode_at(bytes, at)?;
        Ok((BlockBreakAnimationPacket { entity_id, location, destroy_stage }, at))
    }

    fn encode(&self, writer: &mut BytesMut) -> (r: Result<(), EncodeError>) {
        let start = writer.len();
        encode_field(&self.entity_id, writer, start)?;
        encode_field(&self.location, writer, start)?;
        encode_field(&self.destroy_stage, writer, start)?;
        Ok(())
    }
}

impl Packet for BlockBreakAnimationPacket {}

/// 1.8 changes at Chunk Data
///
/// To reduce the number of bytes, this packet is used to send chunks together for better
/// compression results.
pub struct MapChunkBulkPacket {
    pub column_count: VarInt,
}

impl View for MapChunkBulkPacket {
    type V = VarInt;

    open spec fn view(&self) -> Self::V {
        self.column_count@
    }
}

impl Encodable for MapChunkBulkPacket {
    open spec fn wire(v: Self::V) -> Result<Seq<u8>, EncodeError> {
        VarInt::wire(v)
    }

    open spec fn parse(bytes: Seq<u8>, at: int) -> Result<(Self::V, int), DecodeError> {
        VarInt::parse(bytes, at)
    }

    open spec fn exact(v: Self::V) -> bool {
        VarInt::exact(v)
    }

    proof fn lemma_round_trip(v: Self::V, before: Seq<u8>, after: Seq<u8>) {
        VarInt::lemma_round_trip(v, before, after);
    }

    fn decode_at(bytes: &[u8], at: usize) -> (r: Result<(Self, usize), DecodeError>) {
        let (column_count, at) = VarInt::decode_at(bytes, at)?;
        Ok((MapChunkBulkPacket { column_count }, at))
    }

    fn encode(&self, writer: &mut BytesMut) -> (r: Result<(), EncodeError>) {
        self.column_count.encode(writer)
    }
}

impl Packet for MapChunkBulkPacket {}

/// Sent when an explosion occurs (creepers, TNT, and ghast fireballs).
///
/// Each block in Records is set to air. Coordinates for each axis in record is int(X) + record.x
pub struct ExplosionPacket {
    /// Explosion location on the X Axis.
    pub x: Float,

    /// Explosion location on the Y Axis.
    pub y: Float,

    /// Explosion location on the Z Axis.
    pub z: Float,

    /// Currently unused in the client.
    pub radius: Float,

    /// Number of elements in the following array.
    pub record_count: i32,

    /// X velocity of the player being pushed by the explosion
    pub player_motion_x: Float,

    /// Y velocity of the player being pushed by the explosion
    pub player_motion_y: Float,

    /// Z velocity of the player being pushed by the explosion
    pub player_motion_z: Float,
}

impl View for ExplosionPacket {
    type V = (Float, Float, Float, Float, i32, Float, Float, Float);

    open spec fn view(&self) -> Self::V {
        (
            self.x@,
            self.y@,
            self.z@,
            self.radius@,
            self.record_count@,
            self.player_motion_x@,
            self.player_motion_y@,
            self.player_motion_z@,
        )
    }
}

impl Encodable for ExplosionPacket {
    open spec fn wire(v: Self::V) -> Result<Seq<u8>, EncodeError> {
        join(
            Float::wire(v.0),
            join(
                Float::wire(v.1),
                join(
                    Float::wire(v.2),
                    join(
                        Float::wire(v.3),
                        join(
                            i32::wire(v.4),
                            join(Float::wire(v.5), join(Float::wire(v.6), Float::wire(v.7))),
                        ),
                    ),
                ),
            ),
        )
    }

    open spec fn parse(bytes: Seq<u8>, at: int) -> Result<(Self::V, int), DecodeError> {
        match Float::parse(bytes, at) {
            Err(e) => Err(e),
            Ok((x, at)) => match Float::parse(bytes, at) {
                Err(e) => Err(e),
                Ok((y, at)) => match Float::parse(bytes, at) {
                    Err(e) => Err(e),
                    Ok((z, at)) => match Float::parse(bytes, at) {
                        Err(e) => Err(e),
                        Ok((radius, at)) => match i32::parse(bytes, at) {
                            Err(e) => Err(e),
                            Ok((record_count, at)) => match Float::parse(bytes, at) {
                                Err(e) => Err(e),
                                Ok((player_motion_x, at)) => match Float::parse(bytes, at) {
                                    Err(e) => Err(e),
                                    Ok((player_motion_y, at)) => match Float::parse(bytes, at) {
                                        Err(e) => Err(e),
                                        Ok((player_motion_z, at)) => {
                                            let whole = (x, y, z, radius, record_count, player_motion_x, player_motion_y, player_motion_z);
                                            Ok((whole, at))
                                        },
                                    },
                                },
                            },
                        },
                    },
                },
            },
        }
    }

    open spec fn exact(v: Self::V) -> bool {
        &&& Float::exact(v.0)
        &&& Float::exact(v.1)
        &&& Float::exact(v.2)
        &&& Float::exact(v.3)
        &&& i32::exact(v.4)
        &&& Float::exact(v.5)
        &&& Float::exact(v.6)
        &&& Float::exact(v.7)
    }

    proof fn lemma_round_trip(v: Self::V, before: Seq<u8>, after: Seq<u8>) {
        <(Float, (Float, (Float, (Float, (i32, (Float, (Float, Float)))))))>::lemma_round_trip(
            (v.0, (v.1, (v.2, (v.3, (v.4, (v.5, (v.6, v.7))))))),
            before,
            after,
        );
    }

    fn decode_at(bytes: &[u8], at: usize) -> (r: Result<(Self, usize), DecodeError>) {
        let (x, at) = Float::decode_at(bytes, at)?;
        let (y, at) = Float::decode_at(bytes, at)?;
        let (z, at) = Float::decode_at(bytes, at)?;
        let (radius, at) = Float::decode_at(bytes, at)?;
        let (record_count, at) = i32::decode_at(bytes, at)?;
        let (player_motion_x, at) = Float::decode_at(bytes, at)?;
        let (player_motion_y, at) = Float::decode_at(bytes, at)?;
        let (player_motion_z, at) = Float::decode_at(bytes, at)?;
        let packet = ExplosionPacket {
            x,
            y,
            z,
            radius,
            record_count,
            player_motion_x,
            player_motion_y,
            player_motion_z,
        };
        Ok((packet, at))
    }

    fn encode(&self, writer: &mut BytesMut) -> (r: Result<(), EncodeError>) {
        let start = writer.len();
        encode_field(&self.x, writer, start)?;
        encode_field(&self.y, writer, start)?;
        encode_field(&self.z, writer, start)?;
        encode_field(&self.radius, writer, start)?;
        encode_field(&self.record_count, writer, start)?;
        encode_field(&self.player_motion_x, writer, start)?;
        encode_field(&self.player_motion_y, writer, start)?;
        encode_field(&self.player_motion_z, writer, start)?;
        Ok(())
    }
}

impl Packet for ExplosionPacket {}

/// Sent when a client is to play a sound or particle effect.
///
/// By default, the Minecraft client adjusts the volume of sound effects based on distance. The
/// final boolean field is used to disable this, and instead the effect is played from 2 blocks
/// away in the correct direction. Currently this is only used for effect 1013 (mob.wither.spawn),
/// and is ignored for any other value by the client.
pub struct EffectPacket {
    /// The ID of the effect.
    pub effect_id: i32,

    /// The location of the effect.
    pub location: Position,

    /// Extra data for certain effects, see below.
    pub data: i32,
}

impl View for EffectPacket {
    type V = (i32, Position, i32);

    open spec fn view(&self) -> Self::V {
        (self.effect_id@, self.location@, self.data@)
    }
}

impl Encodable for EffectPacket {
    open spec fn wire(v: Self::V) -> Result<Seq<u8>, EncodeError> {
        join(i32::wire(v.0), join(Position::wire(v.1), i32::wire(v.2)))
    }

    open spec fn parse(bytes: Seq<u8>, at: int) -> Result<(Self::V, int), DecodeError> {
        match i32::parse(bytes, at) {
            Err(e) => Err(e),
            Ok((effect_id, at)) => match Position::parse(bytes, at) {
                Err(e) => Err(e),
                Ok((location, at)) => match i32::parse(bytes, at) {
                    Err(e) => Err(e),
                    Ok((data, at)) => Ok(((effect_id, location, data), at)),
                },
            },
        }
    }

    open spec fn exact(v: Self::V) -> bool {
        &&& i32::exact(v.0)
        &&& Position::exact(v.1)
        &&& i32::exact(v.2)
    }

    proof fn lemma_round_trip(v: Self::V, before: Seq<u8>, after: Seq<u8>) {
        <(i32, (Position, i32))>::lemma_round_trip((v.0, (v.1, v.2)), before, after);
    }

    fn decode_at(bytes: &[u8], at: usize) -> (r: Result<(Self, usize), DecodeError>) {
        let (effect_id, at) = i32::decode_at(bytes, at)?;
        let (location, at) = Position::decode_at(bytes, at)?;
        let (data, at) = i32::decode_at(bytes, at)?;
        Ok((EffectPacket { effect_id, location, data }, at))
    }

    fn encode(&self, writer: &mut BytesMut) -> (r: Result<(), EncodeError>) {
        let start = writer.len();
        encode_field(&self.effect_id, writer, start)?;
        encode_field(&self.location, writer, start)?;
        encode_field(&self.data, writer, start)?;
        Ok(())
    }
}

impl Packet for EffectPacket {}

/// Used to play a sound effect on the client.
///
/// Custom sounds may be added by resource packs.
pub struct SoundEffectPacket {
    /// All known sound effect names can be seen here:
    /// https://github.com/SirCmpwn/Craft.Net/blob/master/source/Craft.Net.Common/SoundEffect.cs
    pub sound_name: String,

    /// Effect X multiplied by 8.
    pub effect_position_x: i32,

    /// Effect Y multiplied by 8.
    pub effect_position_y: i32,

    /// Effect Z multiplied by 8.
    pub effect_position_z: i32,

    /// 1 is 100%, can be more.
    pub volume: Float,

    /// 63 is 100%, can be more.
    pub pitch: u8,
}

impl View for SoundEffectPacket {
    type V = (Seq<char>, i32, i32, i32, Float, u8);

    open spec fn view(&self) -> Self::V {
        (
            self.sound_name@,
            self.effect_position_x@,
            self.effect_position_y@,
            self.effect_position_z@,
            self.volume@,
            self.pitch@,
        )
    }
}

impl Encodable for SoundEffectPacket {
    open spec fn wire(v: Self::V) -> Result<Seq<u8>, EncodeError> {
        join(
            String::wire(v.0),
            join(
                i32::wire(v.1),
                join(i32::wire(v.2), join(i32::wire(v.3), join(Float::wire(v.4), u8::wire(v.5)))),
            ),
        )
    }

    open spec fn parse(bytes: Seq<u8>, at: int) -> Result<(Self::V, int), DecodeError> {
        match String::parse(bytes, at) {
            Err(e) => Err(e),
            Ok((sound_name, at)) => match i32::parse(bytes, at) {
                Err(e) => Err(e),
                Ok((effect_position_x, at)) => match i32::parse(bytes, at) {
                    Err(e) => Err(e),
                    Ok((effect_position_y, at)) => match i32::parse(bytes, at) {
                        Err(e) => Err(e),
                        Ok((effect_position_z, at)) => match Float::parse(bytes, at) {
                            Err(e) => Err(e),
                            Ok((volume, at)) => match u8::parse(bytes, at) {
                                Err(e) => Err(e),
                                Ok((pitch, at)) => {
                                    let whole = (sound_name, effect_position_x, effect_position_y, effect_position_z, volume, pitch);
                                    Ok((whole, at))
                                },
                            },
                        },
                    },
                },
            },
        }
    }

    open spec fn exact(v: Self::V) -> bool {
        &&& String::exact(v.0)
        &&& i32::exact(v.1)
        &&& i32::exact(v.2)
        &&& i32::exact(v.3)
        &&& Float::exact(v.4)
        &&& u8::exact(v.5)
    }

    proof fn lemma_round_trip(v: Self::V, before: Seq<u8>, after: Seq<u8>) {
        <(String, (i32, (i32, (i32, (Float, u8)))))>::lemma_round_trip(
            (v.0, (v.1, (v.2, (v.3, (v.4, v.5))))),
            before,
            after,
        );
    }

    fn decode_at(bytes: &[u8], at: usize) -> (r: Result<(Self, usize), DecodeError>) {
        let (sound_name, at) = String::decode_at(bytes, at)?;
        let (effect_position_x, at) = i32::decode_at(bytes, at)?;
        let (effect_position_y, at) = i32::decode_at(bytes, at)?;
        let (effect_position_z, at) = i32::decode_at(bytes, at)?;
        let (volume, at) = Float::decode_at(bytes, at)?;
        let (pitch, at) = u8::decode_at(bytes, at)?;
        let packet = SoundEffectPacket {
            sound_name,
            effect_position_x,
            effect_position_y,
            effect_position_z,
            volume,
            pitch,
        };
        Ok((packet, at))
    }

    fn encode(&self, writer: &mut BytesMut) -> (r: Result<(), EncodeError>) {
        let start = writer.len();
        encode_field(&self.sound_name, writer, start)?;
        encode_field(&self.effect_position_x, writer, start)?;
        encode_field(&self.effect_position_y, writer, start)?;
        encode_field(&self.effect_position_z, writer, start)?;
        encode_field(&self.volume, writer, start)?;
        encode_field(&self.pitch, writer, start)?;
        Ok(())
    }
}

impl Packet for SoundEffectPacket {}

/// Displays the named particle.
pub struct ParticlePacket {
    /// The ID of the Particle.
    pub particle_id: i32,

    /// X position of the particle.
    pub x: Float,

    /// Y position of the particle.
    pub y: Float,

    /// Z position of the particle.
    pub z: Float,

    /// This is added to the X position after being multiplied by random.nextGaussian()
    pub offset_x: Float,

    /// This is added to the Y position after being multiplied by random.nextGaussian()
    pub offset_y: Float,

    /// This is added to the Z position after being multiplied by random.nextGaussian()
    pub offset_z: Float,

    /// The data of each particle.
    pub particle_data: Float,

    /// The number of particles to create.
    pub particle_count: i32,
}

impl View for ParticlePacket {
    type V = (i32, Float, Float, Float, Float, Float, Float, Float, i32);

    open spec fn view(&self) -> Self::V {
        (
            self.particle_id@,
            self.x@,
            self.y@,
            self.z@,
            self.offset_x@,
            self.offset_y@,
            self.offset_z@,
            self.particle_data@,
            self.particle_count@,
        )
    }
}

impl Encodable for ParticlePacket {
    open spec fn wire(v: Self::V) -> Result<Seq<u8>, EncodeError> {
        join(
            i32::wire(v.0),
            join(
                Float::wire(v.1),
                join(
                    Float::wire(v.2),
                    join(
                        Float::wire(v.3),
                        join(
                            Float::wire(v.4),
                            join(
                                Float::wire(v.5),
                                join(Float::wire(v.6), join(Float::wire(v.7), i32::wire(v.8))),
                            ),
                        ),
                    ),
                ),
            ),
        )
    }

    open spec fn parse(bytes: Seq<u8>, at: int) -> Result<(Self::V, int), DecodeError> {
        match i32::parse(bytes, at) {
            Err(e) => Err(e),
            Ok((particle_id, at)) => match Float::parse(bytes, at) {
                Err(e) => Err(e),
                Ok((x, at)) => match Float::parse(bytes, at) {
                    Err(e) => Err(e),
                    Ok((y, at)) => match Float::parse(bytes, at) {
                        Err(e) => Err(e),
                        Ok((z, at)) => match Float::parse(bytes, at) {
                            Err(e) => Err(e),
                            Ok((offset_x, at)) => match Float::parse(bytes, at) {
                                Err(e) => Err(e),
                                Ok((offset_y, at)) => match Float::parse(bytes, at) {
                                    Err(e) => Err(e),
                                    Ok((offset_z, at)) => match Float::parse(bytes, at) {
                                        Err(e) => Err(e),
                                        Ok((particle_data, at)) => match i32::parse(bytes, at) {
                                            Err(e) => Err(e),
                                            Ok((particle_count, at)) => {
                                                let whole = (particle_id, x, y, z, offset_x, offset_y, offset_z, particle_data, particle_count);
                                                Ok((whole, at))
                                            },
                                        },
                                    },
                                },
                            },
                        },
                    },
                },
            },
        }
    }

    open spec fn exact(v: Self::V) -> bool {
        &&& i32::exact(v.0)
        &&& Float::exact(v.1)
        &&& Float::exact(v.2)
        &&& Float::exact(v.3)
        &&& Float::exact(v.4)
        &&& Float::exact(v.5)
        &&& Float::exact(v.6)
        &&& Float::exact(v.7)
        &&& i32::exact(v.8)
    }

    proof fn lemma_round_trip(v: Self::V, before: Seq<u8>, after: Seq<u8>) {
        <(i32, (Float, (Float, (Float, (Float, (Float, (Float, (Float, i32))))))))>::lemma_round_trip(
            (v.0, (v.1, (v.2, (v.3, (v.4, (v.5, (v.6, (v.7, v.8)))))))),
            before,
            after,
        );
    }

    fn decode_at(bytes: &[u8], at: usize) -> (r: Result<(Self, usize), DecodeError>) {
        let (particle_id, at) = i32::decode_at(bytes, at)?;
        let (x, at) = Float::decode_at(bytes, at)?;
        let (y, at) = Float::decode_at(bytes, at)?;
        let (z, at) = Float::decode_at(bytes, at)?;
        let (offset_x, at) = Float::decode_at(bytes, at)?;
        let (offset_y, at) = Float::decode_at(bytes, at)?;
        let (offset_z, at) = Float::decode_at(bytes, at)?;
        let (particle_data, at) = Float::decode_at(bytes, at)?;
        let (particle_count, at) = i32::decode_at(bytes, at)?;
        let packet = ParticlePacket {
            particle_id,
            x,
            y,
            z,
            offset_x,
            offset_y,
            offset_z,
            particle_data,
            particle_count,
        };
        Ok((packet, at))
    }

    fn encode(&self, writer: &mut BytesMut) -> (r: Result<(), EncodeError>) {
        let start = writer.len();
        encode_field(&self.particle_id, writer, start)?;
        encode_field(&self.x, writer, start)?;
        encode_field(&self.y, writer, start)?;
        encode_field(&self.z, writer, start)?;
        encode_field(&self.offset_x, writer, start)?;
        encode_field(&self.offset_y, writer, start)?;
        encode_field(&self.offset_z, writer, start)?;
        encode_field(&self.particle_data, writer, start)?;
        encode_field(&self.particle_count, writer, start)?;
        Ok(())
    }
}

impl Packet for ParticlePacket {}

/// It appears when a bed can't be used as a spawn point and when the rain state changes.
///
/// # Reason codes Table
/// | ID | Reason                                 | Note                                                                                                                     |
/// |---------------------------------------------|--------------------------------------------------------------------------------------------------------------------------|
/// | 0  | Invalid Bed                            |                                                                                                                          |
/// | 1  | End raining                            |                                                                                                                          |
/// | 2  | Begin raining                          |                                                                                                                          |
/// | 3  | Change game mode                       | 0: Survival, 1: Creative, 2: Adventure, 3: Spectator                                                                     |
/// | 4  | Enter credits                          |                                                                                                                          |
/// | 5  | Demo message                           | 0: Show welcome to demo screen, 101: Tell movement controls, 102: Tell jump control, 103: Tell inventory control         |
/// | 6  | Arrow hitting player                   | Appears to be played when an arrow strikes another player in Multiplayer                                                 |
/// | 7  | Fade value                             | The current darkness value. 1 = Dark, 0 = Bright, Setting the value higher causes the game to change color and freeze    |
/// | 8  | Fade time                              | Time in ticks for the sky to fade                                                                                        |
/// | 10 | Play mob appearance (effect and sound) | Unknown                                                                                                                  |
pub struct ChangeGameStatePacket {
    /// Reason code.
    pub reason: u8,

    /// Depends on reason.
    pub value: Float,
}

impl View for ChangeGameStatePacket {
    type V = (u8, Float);

    open spec fn view(&self) -> Self::V {
        (self.reason@, self.value@)
    }
}

impl Encodable for ChangeGameStatePacket {
    open spec fn wire(v: Self::V) -> Result<Seq<u8>, EncodeError> {
        join(u8::wire(v.0), Float::wire(v.1))
    }

    open spec fn parse(bytes: Seq<u8>, at: int) -> Result<(Self::V, int), DecodeError> {
        match u8::parse(bytes, at) {
            Err(e) => Err(e),
            Ok((reason, at)) => match Float::parse(bytes, at) {
                Err(e) => Err(e),
                Ok((value, at)) => Ok(((reason, value), at)),
            },
        }
    }

    open spec fn exact(v: Self::V) -> bool {
        &&& u8::exact(v.0)
        &&& Float::exact(v.1)
    }

    proof fn lemma_round_trip(v: Self::V, before: Seq<u8>, after: Seq<u8>) {
        <(u8, Float)>::lemma_round_trip((v.0, v.1), before, after);
    }

    fn decode_at(bytes: &[u8], at: usize) -> (r: Result<(Self, usize), DecodeError>) {
        let (reason, at) = u8::decode_at(bytes, at)?;
        let (value, at) = Float::decode_at(bytes, at)?;
        Ok((ChangeGameStatePacket { reason, value }, at))
    }

    fn encode(&self, writer: &mut BytesMut) -> (r: Result<(), EncodeError>) {
        let start = writer.len();
        encode_field(&self.reason, writer, start)?;
        encode_field(&self.value, writer, start)?;
        Ok(())
    }
}

impl Packet for ChangeGameStatePacket {}

/// With this packet, the server notifies the client of thunderbolts striking within a 512 block
/// radius around the player. The coordinates specify where exactly the thunderbolt strikes.
pub struct SpawnGlobalEntityPacket {
    /// The EID of the thunderbolt.
    pub entity_id: VarInt,

    /// The global entity type, currently always 1 for thunderbolt.
    pub type_: i8,

    /// Thunderbolt X, a fixed-point number.
    pub x: i32,

    /// Thunderbolt Y, a fixed-point number.
    pub y: i32,

    /// Thunderbolt Z, a fixed-point number.
    pub z: i32,
}

impl View for SpawnGlobalEntityPacket {
    type V = (VarInt, i8, i32, i32, i32);

    open spec fn view(&self) -> Self::V {
        (self.entity_id@, self.type_@, self.x@, self.y@, self.z@)
    }
}

impl Encodable for SpawnGlobalEntityPacket {
    open spec fn wire(v: Self::V) -> Result<Seq<u8>, EncodeError> {
        join(
            VarInt::wire(v.0),
            join(i8::wire(v.1), join(i32::wire(v.2), join(i32::wire(v.3), i32::wire(v.4)))),
        )
    }

    open spec fn parse(bytes: Seq<u8>, at: int) -> Result<(Self::V, int), DecodeError> {
        match VarInt::parse(bytes, at) {
            Err(e) => Err(e),
            Ok((entity_id, at)) => match i8::parse(bytes, at) {
                Err(e) => Err(e),
                Ok((type_, at)) => match i32::parse(bytes, at) {
                    Err(e) => Err(e),
                    Ok((x, at)) => match i32::parse(bytes, at) {
                        Err(e) => Err(e),
                        Ok((y, at)) => match i32::parse(bytes, at) {
                            Err(e) => Err(e),
                            Ok((z, at)) => Ok(((entity_id, type_, x, y, z), at)),
                        },
                    },
                },
            },
        }
    }

    open spec fn exact(v: Self::V) -> bool {
        &&& VarInt::exact(v.0)
        &&& i8::exact(v.1)
        &&& i32::exact(v.2)
        &&& i32::exact(v.3)
        &&& i32::exact(v.4)
    }

    proof fn lemma_round_trip(v: Self::V, before: Seq<u8>, after: Seq<u8>) {
        <(VarInt, (i8, (i32, (i32, i32))))>::lemma_round_trip(
            (v.0, (v.1, (v.2, (v.3, v.4)))),
            before,
            after,
        );
    }

    fn decode_at(bytes: &[u8], at: usize) -> (r: Result<(Self, usize), DecodeError>) {
        let (entity_id, at) = VarInt::decode_at(bytes, at)?;
        let (type_, at) = i8::decode_at(bytes, at)?;
        let (x, at) = i32::decode_at(bytes, at)?;
        let (y, at) = i32::decode_at(bytes, at)?;
        let (z, at) = i32::decode_at(bytes, at)?;
        Ok((SpawnGlobalEntityPacket { entity_id, type_, x, y, z }, at))
    }

    fn encode(&self, writer: &mut BytesMut) -> (r: Result<(), EncodeError>) {
        let start = writer.len();
        encode_field(&self.entity_id, writer, start)?;
        encode_field(&self.type_, writer, start)?;
        encode_field(&self.x, writer, start)?;
        encode_field(&self.y, writer, start)?;
        encode_field(&self.z, writer, start)?;
        Ok(())
    }
}

impl Packet for SpawnGlobalEntityPacket {}

/// This packet is sent from the server to the client when a window is forcibly closed, such as
/// when a chest is destroyed while it's open.
///
/// Note, notchian clients send a close window packet with Window ID 0 to close their inventory
/// even though there is never an Open Window packet for inventory.
pub struct CloseWindowPacket {
    /// This is the ID of the window that was closed. 0 for inventory.
    pub id: u8,
}

impl View for CloseWindowPacket {
    type V = u8;

    open spec fn view(&self) -> Self::V {
        self.id@
    }
}

impl Encodable for CloseWindowPacket {
    open spec fn wire(v: Self::V) -> Result<Seq<u8>, EncodeError> {
        u8::wire(v)
    }

    open spec fn parse(bytes: Seq<u8>, at: int) -> Result<(Self::V, int), DecodeError> {
        u8::parse(bytes, at)
    }

    open spec fn exact(v: Self::V) -> bool {
        u8::exact(v)
    }

    proof fn lemma_round_trip(v: Self::V, before: Seq<u8>, after: Seq<u8>) {
        u8::lemma_round_trip(v, before, after);
    }

    fn decode_at(bytes: &[u8], at: usize) -> (r: Result<(Self, usize), DecodeError>) {
        let (id, at) = u8::decode_at(bytes, at)?;
        Ok((CloseWindowPacket { id }, at))
    }

    fn encode(&self, writer: &mut BytesMut) -> (r: Result<(), EncodeError>) {
        self.id.encode(writer)
    }
}

impl Packet for CloseWindowPacket {}

/// Sent by the server when an item in a slot (in a window) is added/removed.
pub struct SetSlotPacket {
    /// The window which is being updated. 0 for player inventory. Note that all known window types
    /// include the player inventory. This packet will only be sent for the currently opened window
    /// while the player is performing actions, even if it affects the player inventory. After the
    /// window is closed, a number of these packets are sent to update the player's inventory
    /// window (0).
    pub id: i8,

    /// The slot that should be updated.
    pub slot: i16,
}

impl View for SetSlotPacket {
    type V = (i8, i16);

    open spec fn view(&self) -> Self::V {
        (self.id@, self.slot@)
    }
}

impl Encodable for SetSlotPacket {
    open spec fn wire(v: Self::V) -> Result<Seq<u8>, EncodeError> {
        join(i8::wire(v.0), i16::wire(v.1))
    }

    open spec fn parse(bytes: Seq<u8>, at: int) -> Result<(Self::V, int), DecodeError> {
        match i8::parse(bytes, at) {
            Err(e) => Err(e),
            Ok((id, at)) => match i16::parse(bytes, at) {
                Err(e) => Err(e),
                Ok((slot, at)) => Ok(((id, slot), at)),
            },
        }
    }

    open spec fn exact(v: Self::V) -> bool {
        &&& i8::exact(v.0)
        &&& i16::exact(v.1)
    }

    proof fn lemma_round_trip(v: Self::V, before: Seq<u8>, after: Seq<u8>) {
        <(i8, i16)>::lemma_round_trip((v.0, v.1), before, after);
    }

    fn decode_at(bytes: &[u8], at: usize) -> (r: Result<(Self, usize), DecodeError>) {
        let (id, at) = i8::decode_at(bytes, at)?;
        let (slot, at) = i16::decode_at(bytes, at)?;
        Ok((SetSlotPacket { id, slot }, at))
    }

    fn encode(&self, writer: &mut BytesMut) -> (r: Result<(), EncodeError>) {
        let start = writer.len();
        encode_field(&self.id, writer, start)?;
        encode_field(&self.slot, writer, start)?;
        Ok(())
    }
}

impl Packet for SetSlotPacket {}

/// Sent by the server when items in multiple slots (in a window) are added/removed. This includes
/// the main inventory, equipped armour and crafting slots.
pub struct WindowItemsPacket {
    /// The ID of window which items are being sent for. 0 for player inventory.
    pub id: u8,

    /// Number of elements in the following array.
    pub count: i16,
}

impl View for WindowItemsPacket {
    type V = (u8, i16);

    open spec fn view(&self) -> Self::V {
        (self.id@, self.count@)
    }
}

impl Encodable for WindowItemsPacket {
    open spec fn wire(v: Self::V) -> Result<Seq<u8>, EncodeError> {
        join(u8::wire(v.0), i16::wire(v.1))
    }

    open spec fn parse(bytes: Seq<u8>, at: int) -> Result<(Self::V, int), DecodeError> {
        match u8::parse(bytes, at) {
            Err(e) => Err(e),
            Ok((id, at)) => match i16::parse(bytes, at) {
                Err(e) => Err(e),
                Ok((count, at)) => Ok(((id, count), at)),
            },
        }
    }

    open spec fn exact(v: Self::V) -> bool {
        &&& u8::exact(v.0)
        &&& i16::exact(v.1)
    }

    proof fn lemma_round_trip(v: Self::V, before: Seq<u8>, after: Seq<u8>) {
        <(u8, i16)>::lemma_round_trip((v.0, v.1), before, after);
    }

    fn decode_at(bytes: &[u8], at: usize) -> (r: Result<(Self, usize), DecodeError>) {
        let (id, at) = u8::decode_at(bytes, at)?;
        let (count, at) = i16::decode_at(bytes, at)?;
        Ok((WindowItemsPacket { id, count }, at))
    }

    fn encode(&self, writer: &mut BytesMut) -> (r: Result<(), EncodeError>) {
        let start = writer.len();
        encode_field(&self.id, writer, start)?;
        encode_field(&self.count, writer, start)?;
        Ok(())
    }
}

impl Packet for WindowItemsPacket {}

/// This packet is used to inform the client that part of a GUI window should be updated.
///
pub struct WindowPropertyPacket {
    /// The ID of a window.
    pub id: u8,

    /// The property to be updated, see below.
    pub property: i16,

    /// The new value for the property, see below.
    pub value: i16,
}

impl View for WindowPropertyPacket {
    type V = (u8, i16, i16);

    open spec fn view(&self) -> Self::V {
        (self.id@, self.property@, self.value@)
    }
}

impl Encodable for WindowPropertyPacket {
    open spec fn wire(v: Self::V) -> Result<Seq<u8>, EncodeError> {
        join(u8::wire(v.0), join(i16::wire(v.1), i16::wire(v.2)))
    }

    open spec fn parse(bytes: Seq<u8>, at: int) -> Result<(Self::V, int), DecodeError> {
        match u8::parse(bytes, at) {
            Err(e) => Err(e),
            Ok((id, at)) => match i16::parse(bytes, at) {
                Err(e) => Err(e),
                Ok((property, at)) => match i16::parse(bytes, at) {
                    Err(e) => Err(e),
                    Ok((value, at)) => Ok(((id, property, value), at)),
                },
            },
        }
    }

    open spec fn exact(v: Self::V) -> bool {
        &&& u8::exact(v.0)
        &&& i16::exact(v.1)
        &&& i16::exact(v.2)
    }

    proof fn lemma_round_trip(v: Self::V, before: Seq<u8>, after: Seq<u8>) {
        <(u8, (i16, i16))>::lemma_round_trip((v.0, (v.1, v.2)), before, after);
    }

    fn decode_at(bytes: &[u8], at: usize) -> (r: Result<(Self, usize), DecodeError>) {
        let (id, at) = u8::decode_at(bytes, at)?;
        let (property, at) = i16::decode_at(bytes, at)?;
        let (value, at) = i16::decode_at(bytes, at)?;
        Ok((WindowPropertyPacket { id, property, value }, at))
    }

    fn encode(&self, writer: &mut BytesMut) -> (r: Result<(), EncodeError>) {
        let start = writer.len();
        encode_field(&self.id, writer, start)?;
        encode_field(&self.property, writer, start)?;
        encode_field(&self.value, writer, start)?;
        Ok(())
    }
}

impl Packet for WindowPropertyPacket {}

/// A packet from the server indicating whether a request from the client was accepted, or whether
/// there was a conflict (due to lag).
pub struct ConfirmTransactionPacket {
    /// The ID of the window that the action occurred in.
    pub id: i8,

    /// Every action that is to be accepted has a unique number. This field corresponds to that number.
    pub action_number: i16,
}

impl View for ConfirmTransactionPacket {
    type V = (i8, i16);

    open spec fn view(&self) -> Self::V {
        (self.id@, self.action_number@)
    }
}

impl Encodable for ConfirmTransactionPacket {
    open spec fn wire(v: Self::V) -> Result<Seq<u8>, EncodeError> {
        join(i8::wire(v.0), i16::wire(v.1))
    }

    open spec fn parse(bytes: Seq<u8>, at: int) -> Result<(Self::V, int), DecodeError> {
        match i8::parse(bytes, at) {
            Err(e) => Err(e),
            Ok((id, at)) => match i16::parse(bytes, at) {
                Err(e) => Err(e),
                Ok((action_number, at)) => Ok(((id, action_number), at)),
            },
        }
    }

    open spec fn exact(v: Self::V) -> bool {
        &&& i8::exact(v.0)
        &&& i16::exact(v.1)
    }

    proof fn lemma_round_trip(v: Self::V, before: Seq<u8>, after: Seq<u8>) {
        <(i8, i16)>::lemma_round_trip((v.0, v.1), before, after);
    }

    fn decode_at(bytes: &[u8], at: usize) -> (r: Result<(Self, usize), DecodeError>) {
        let (id, at) = i8::decode_at(bytes, at)?;
        let (action_number, at) = i16::decode_at(bytes, at)?;
        Ok((ConfirmTransactionPacket { id, action_number }, at))
    }

    fn encode(&self, writer: &mut BytesMut) -> (r: Result<(), EncodeError>) {
        let start = writer.len();
        encode_field(&self.id, writer, start)?;
        encode_field(&self.action_number, writer, start)?;
        Ok(())
    }
}

impl Packet for ConfirmTransactionPacket {}

/// Updates a rectangular area on a map.
pub struct MapPacket {
    /// The damage value (map ID) of the map being modified.
    pub item_damage: VarInt,

    pub scale: i8,

    /// Number of elements in the following array.
    pub icon_amount: VarInt,

    /// Number of columns updated.
    pub column: i8,
}

impl View for MapPacket {
    type V = (VarInt, i8, VarInt, i8);

    open spec fn view(&self) -> Self::V {
        (self.item_damage@, self.scale@, self.icon_amount@, self.column@)
    }
}

impl Encodable for MapPacket {
    open spec fn wire(v: Self::V) -> Result<Seq<u8>, EncodeError> {
        join(VarInt::wire(v.0), join(i8::wire(v.1), join(VarInt::wire(v.2), i8::wire(v.3))))
    }

    open spec fn parse(bytes: Seq<u8>, at: int) -> Result<(Self::V, int), DecodeError> {
        match VarInt::parse(bytes, at) {
            Err(e) => Err(e),
            Ok((item_damage, at)) => match i8::parse(bytes, at) {
                Err(e) => Err(e),
                Ok((scale, at)) => match VarInt::parse(bytes, at) {
                    Err(e) => Err(e),
                    Ok((icon_amount, at)) => match i8::parse(bytes, at) {
                        Err(e) => Err(e),
                        Ok((column, at)) => Ok(((item_damage, scale, icon_amount, column), at)),
                    },
                },
            },
        }
    }

    open spec fn exact(v: Self::V) -> bool {
        &&& VarInt::exact(v.0)
        &&& i8::exact(v.1)
        &&& VarInt::exact(v.2)
        &&& i8::exact(v.3)
    }

    proof fn lemma_round_trip(v: Self::V, before: Seq<u8>, after: Seq<u8>) {
        <(VarInt, (i8, (VarInt, i8)))>::lemma_round_trip((v.0, (v.1, (v.2, v.3))), before, after);
    }

    fn decode_at(bytes: &[u8], at: usize) -> (r: Result<(Self, usize), DecodeError>) {
        let (item_damage, at) = VarInt::decode_at(bytes, at)?;
        let (scale, at) = i8::decode_at(bytes, at)?;
        let (icon_amount, at) = VarInt::decode_at(bytes, at)?;
        let (column, at) = i8::decode_at(bytes, at)?;
        Ok((MapPacket { item_damage, scale, icon_amount, column }, at))
    }

    fn encode(&self, writer: &mut BytesMut) -> (r: Result<(), EncodeError>) {
        let start = writer.len();
        encode_field(&self.item_damage, writer, start)?;
        encode_field(&self.scale, writer, start)?;
        encode_field(&self.icon_amount, writer, start)?;
        encode_field(&self.column, writer, start)?;
        Ok(())
    }
}

impl Packet for MapPacket {}

/// Essentially a block update on a block entity.
///
/// # Action Table                                                          |
/// | Action | Description                                                  |
/// |--------|--------------------------------------------------------------|
/// |    1   | Set SpawnPotentials of a mob spawner                         |
/// |    2   | Set command block text (command and last execution status)   |
/// |    3   | Set the level, primary, and secondary powers of a beacon     |
/// |    4   | Set rotation and skin of mob head                            |
/// |    5   | Set type of flower in flower pot                             |
/// |    6   | Set base color and patterns on a banner                      |
pub struct UpdateBlockEntityPacket {
    pub location: Position,

    /// The type of update to perform, see below.
    pub action: u8,
}

impl View for UpdateBlockEntityPacket {
    type V = (Position, u8);

    open spec fn view(&self) -> Self::V {
        (self.location@, self.action@)
    }
}

impl Encodable for UpdateBlockEntityPacket {
    open spec fn wire(v: Self::V) -> Result<Seq<u8>, EncodeError> {
        join(Position::wire(v.0), u8::wire(v.1))
    }

    open spec fn parse(bytes: Seq<u8>, at: int) -> Result<(Self::V, int), DecodeError> {
        match Position::parse(bytes, at) {
            Err(e) => Err(e),
            Ok((location, at)) => match u8::parse(bytes, at) {
                Err(e) => Err(e),
                Ok((action, at)) => Ok(((location, action), at)),
            },
        }
    }

    open spec fn exact(v: Self::V) -> bool {
        &&& Position::exact(v.0)
        &&& u8::exact(v.1)
    }

    proof fn lemma_round_trip(v: Self::V, before: Seq<u8>, after: Seq<u8>) {
        <(Position, u8)>::lemma_round_trip((v.0, v.1), before, after);
    }

    fn decode_at(bytes: &[u8], at: usize) -> (r: Result<(Self, usize), DecodeError>) {
        let (location, at) = Position::decode_at(bytes, at)?;
        let (action, at) = u8::decode_at(bytes, at)?;
        Ok((UpdateBlockEntityPacket { location, action }, at))
    }

    fn encode(&self, writer: &mut BytesMut) -> (r: Result<(), EncodeError>) {
        let start = writer.len();
        encode_field(&self.location, writer, start)?;
        encode_field(&self.action, writer, start)?;
        Ok(())
    }
}

impl Packet for UpdateBlockEntityPacket {}

/// Sent when the client has placed a sign and is allowed to send Update Sign.
pub struct OpenSignEditorPacket {
    pub location: Position,
}

impl View for OpenSignEditorPacket {
    type V = Position;

    open spec fn view(&self) -> Self::V {
        self.location@
    }
}

impl Encodable for OpenSignEditorPacket {
    open spec fn wire(v: Self::V) -> Result<Seq<u8>, EncodeError> {
        Position::wire(v)
    }

    open spec fn parse(bytes: Seq<u8>, at: int) -> Result<(Self::V, int), DecodeError> {
        Position::parse(bytes, at)
    }

    open spec fn exact(v: Self::V) -> bool {
        Position::exact(v)
    }

    proof fn lemma_round_trip(v: Self::V, before: Seq<u8>, after: Seq<u8>) {
        Position::lemma_round_trip(v, before, after);
    }

    fn decode_at(bytes: &[u8], at: usize) -> (r: Result<(Self, usize), DecodeError>) {
        let (location, at) = Position::decode_at(bytes, at)?;
        Ok((OpenSignEditorPacket { location }, at))
    }

    fn encode(&self, writer: &mut BytesMut) -> (r: Result<(), EncodeError>) {
        self.location.encode(writer)
    }
}

impl Packet for OpenSignEditorPacket {}

/// Tells the client its statistics.
pub struct StatisticsPacket {
    /// Number of elements in the following array.
    pub count: VarInt,
}

impl View for StatisticsPacket {
    type V = VarInt;

    open spec fn view(&self) -> Self::V {
        self.count@
    }
}

impl Encodable for StatisticsPacket {
    open spec fn wire(v: Self::V) -> Result<Seq<u8>, EncodeError> {
        VarInt::wire(v)
    }

    open spec fn parse(bytes: Seq<u8>, at: int) -> Result<(Self::V, int), DecodeError> {
        VarInt::parse(bytes, at)
    }

    open spec fn exact(v: Self::V) -> bool {
        VarInt::exact(v)
    }

    proof fn lemma_round_trip(v: Self::V, before: Seq<u8>, after: Seq<u8>) {
        VarInt::lemma_round_trip(v, before, after);
    }

    fn decode_at(bytes: &[u8], at: usize) -> (r: Result<(Self, usize), DecodeError>) {
        let (count, at) = VarInt::decode_at(bytes, at)?;
        Ok((StatisticsPacket { count }, at))
    }

    fn encode(&self, writer: &mut BytesMut) -> (r: Result<(), EncodeError>) {
        self.count.encode(writer)
    }
}

impl Packet for StatisticsPacket {}

/// Sent by the notchian server to update the user list (<tab> in the client.)
pub struct PlayerListItemPacket {
    /// Determines the rest of the Player format after the UUID.
    pub action: VarInt,

    /// Number of elements in the following array.
    pub players_amount: VarInt,
}

impl View for PlayerListItemPacket {
    type V = (VarInt, VarInt);

    open spec fn view(&self) -> Self::V {
        (self.action@, self.players_amount@)
    }
}

impl Encodable for PlayerListItemPacket {
    open spec fn wire(v: Self::V) -> Result<Seq<u8>, EncodeError> {
        join(VarInt::wire(v.0), VarInt::wire(v.1))
    }

    open spec fn parse(bytes: Seq<u8>, at: int) -> Result<(Self::V, int), DecodeError> {
        match VarInt::parse(bytes, at) {
            Err(e) => Err(e),
            Ok((action, at)) => match VarInt::parse(bytes, at) {
                Err(e) => Err(e),
                Ok((players_amount, at)) => Ok(((action, players_amount), at)),
            },
        }
    }

    open spec fn exact(v: Self::V) -> bool {
        &&& VarInt::exact(v.0)
        &&& VarInt::exact(v.1)
    }

    proof fn lemma_round_trip(v: Self::V, before: Seq<u8>, after: Seq<u8>) {
        <(VarInt, VarInt)>::lemma_round_trip((v.0, v.1), before, after);
    }

    fn decode_at(bytes: &[u8], at: usize) -> (r: Result<(Self, usize), DecodeError>) {
        let (action, at) = VarInt::decode_at(bytes, at)?;
        let (players_amount, at) = VarInt::decode_at(bytes, at)?;
        Ok((PlayerListItemPacket { action, players_amount }, at))
    }

    fn encode(&self, writer: &mut BytesMut) -> (r: Result<(), EncodeError>) {
        let start = writer.len();
        encode_field(&self.action, writer, start)?;
        encode_field(&self.players_amount, writer, start)?;
        Ok(())
    }
}

impl Packet for PlayerListItemPacket {}

/// The latter 2 floats are used to indicate the field of view and flying speed respectively, while
/// the first byte is used to determine the value of 4 booleans.
///
/// # Flags
pub struct PlayerAbilitiesPacket {
    /// Bit field.
    pub flags: i8,

    pub flying_speed: Float,

    /// Modifies the field of view, like a speed potion. A Notchian server will use the same value
    /// as the movement speed (send in the Entity Properties packet.)
    pub fov_modifier: Float,
}

impl View for PlayerAbilitiesPacket {
    type V = (i8, Float, Float);

    open spec fn view(&self) -> Self::V {
        (self.flags@, self.flying_speed@, self.fov_modifier@)
    }
}

impl Encodable for PlayerAbilitiesPacket {
    open spec fn wire(v: Self::V) -> Result<Seq<u8>, EncodeError> {
        join(i8::wire(v.0), join(Float::wire(v.1), Float::wire(v.2)))
    }

    open spec fn parse(bytes: Seq<u8>, at: int) -> Result<(Self::V, int), DecodeError> {
        match i8::parse(bytes, at) {
            Err(e) => Err(e),
            Ok((flags, at)) => match Float::parse(bytes, at) {
                Err(e) => Err(e),
                Ok((flying_speed, at)) => match Float::parse(bytes, at) {
                    Err(e) => Err(e),
                    Ok((fov_modifier, at)) => Ok(((flags, flying_speed, fov_modifier), at)),
                },
            },
        }
    }

    open spec fn exact(v: Self::V) -> bool {
        &&& i8::exact(v.0)
        &&& Float::exact(v.1)
        &&& Float::exact(v.2)
    }

    proof fn lemma_round_trip(v: Self::V, before: Seq<u8>, after: Seq<u8>) {
        <(i8, (Float, Float))>::lemma_round_trip((v.0, (v.1, v.2)), before, after);
    }

    fn decode_at(bytes: &[u8], at: usize) -> (r: Result<(Self, usize), DecodeError>) {
        let (flags, at) = i8::decode_at(bytes, at)?;
        let (flying_speed, at) = Float::decode_at(bytes, at)?;
        let (fov_modifier, at) = Float::decode_at(bytes, at)?;
        Ok((PlayerAbilitiesPacket { flags, flying_speed, fov_modifier }, at))
    }

    fn encode(&self, writer: &mut BytesMut) -> (r: Result<(), EncodeError>) {
        let start = writer.len();
        encode_field(&self.flags, writer, start)?;
        encode_field(&self.flying_speed, writer, start)?;
        encode_field(&self.fov_modifier, writer, start)?;
        Ok(())
    }
}

impl Packet for PlayerAbilitiesPacket {}

/// The server responds with a list of auto-completions of the last word sent to it. In the case of
/// regular chat, this is a player username. Command names and parameters are also supported.
pub struct TabCompletePacket {
    /// Number of elements in the following array.
    pub flags: VarInt,
}

impl View for TabCompletePacket {
    type V = VarInt;

    open spec fn view(&self) -> Self::V {
        self.flags@
    }
}

impl Encodable for TabCompletePacket {
    open spec fn wire(v: Self::V) -> Result<Seq<u8>, EncodeError> {
        VarInt::wire(v)
    }

    open spec fn parse(bytes: Seq<u8>, at: int) -> Result<(Self::V, int), DecodeError> {
        VarInt::parse(bytes, at)
    }

    open spec fn exact(v: Self::V) -> bool {
        VarInt::exact(v)
    }

    proof fn lemma_round_trip(v: Self::V, before: Seq<u8>, after: Seq<u8>) {
        VarInt::lemma_round_trip(v, before, after);
    }

    fn decode_at(bytes: &[u8], at: usize) -> (r: Result<(Self, usize), DecodeError>) {
        let (flags, at) = VarInt::decode_at(bytes, at)?;
        Ok((TabCompletePacket { flags }, at))
    }

    fn encode(&self, writer: &mut BytesMut) -> (r: Result<(), EncodeError>) {
        self.flags.encode(writer)
    }
}

impl Packet for TabCompletePacket {}

/// This is sent to the client when it should create a new scoreboard objective or remove one.
pub struct ScoreboardObjectivePacket {
    /// An unique name for the objective.
    pub name: String,

    /// 0 to create the scoreboard. 1 to remove the scoreboard. 2 to update the display text.
    pub mode: i8,
}

impl View for ScoreboardObjectivePacket {
    type V = (Seq<char>, i8);

    open spec fn view(&self) -> Self::V {
        (self.name@, self.mode@)
    }
}

impl Encodable for ScoreboardObjectivePacket {
    open spec fn wire(v: Self::V) -> Result<Seq<u8>, EncodeError> {
        join(String::wire(v.0), i8::wire(v.1))
    }

    open spec fn parse(bytes: Seq<u8>, at: int) -> Result<(Self::V, int), DecodeError> {
        match String::parse(bytes, at) {
            Err(e) => Err(e),
            Ok((name, at)) => match i8::parse(bytes, at) {
                Err(e) => Err(e),
                Ok((mode, at)) => Ok(((name, mode), at)),
            },
        }
    }

    open spec fn exact(v: Self::V) -> bool {
        &&& String::exact(v.0)
        &&& i8::exact(v.1)
    }

    proof fn lemma_round_trip(v: Self::V, before: Seq<u8>, after: Seq<u8>) {
        <(String, i8)>::lemma_round_trip((v.0, v.1), before, after);
    }

    fn decode_at(bytes: &[u8], at: usize) -> (r: Result<(Self, usize), DecodeError>) {
        let (name, at) = String::decode_at(bytes, at)?;
        let (mode, at) = i8::decode_at(bytes, at)?;
        Ok((ScoreboardObjectivePacket { name, mode }, at))
    }

    fn encode(&self, writer: &mut BytesMut) -> (r: Result<(), EncodeError>) {
        let start = writer.len();
        encode_field(&self.name, writer, start)?;
        encode_field(&self.mode, writer, start)?;
        Ok(())
    }
}

impl Packet for ScoreboardObjectivePacket {}

/// This is sent to the client when it should update a scoreboard item.
pub struct UpdateScorePacket {
    /// The name of the score to be updated or removed.
    pub name: String,

    /// 0 to create/update an item. 1 to remove an item.
    pub action: i8,

    /// The name of the objective the score belongs to.
    pub objective_name: String,
}

impl View for UpdateScorePacket {
    type V = (Seq<char>, i8, Seq<char>);

    open spec fn view(&self) -> Self::V {
        (self.name@, self.action@, self.objective_name@)
    }
}

impl Encodable for UpdateScorePacket {
    open spec fn wire(v: Self::V) -> Result<Seq<u8>, EncodeError> {
        join(String::wire(v.0), join(i8::wire(v.1), String::wire(v.2)))
    }

    open spec fn parse(bytes: Seq<u8>, at: int) -> Result<(Self::V, int), DecodeError> {
        match String::parse(bytes, at) {
            Err(e) => Err(e),
            Ok((name, at)) => match i8::parse(bytes, at) {
                Err(e) => Err(e),
                Ok((action, at)) => match String::parse(bytes, at) {
                    Err(e) => Err(e),
                    Ok((objective_name, at)) => Ok(((name, action, objective_name), at)),
                },
            },
        }
    }

    open spec fn exact(v: Self::V) -> bool {
        &&& String::exact(v.0)
        &&& i8::exact(v.1)
        &&& String::exact(v.2)
    }

    proof fn lemma_round_trip(v: Self::V, before: Seq<u8>, after: Seq<u8>) {
        <(String, (i8, String))>::lemma_round_trip((v.0, (v.1, v.2)), before, after);
    }

    fn decode_at(bytes: &[u8], at: usize) -> (r: Result<(Self, usize), DecodeError>) {
        let (name, at) = String::decode_at(bytes, at)?;
        let (action, at) = i8::decode_at(bytes, at)?;
        let (objective_name, at) = String::decode_at(bytes, at)?;
        Ok((UpdateScorePacket { name, action, objective_name }, at))
    }

    fn encode(&self, writer: &mut BytesMut) -> (r: Result<(), EncodeError>) {
        let start = writer.len();
        encode_field(&self.name, writer, start)?;
        encode_field(&self.action, writer, start)?;
        encode_field(&self.objective_name, writer, start)?;
        Ok(())
    }
}

impl Packet for UpdateScorePacket {}

/// This is sent to the client when it should display a scoreboard.
pub struct DisplayScoreboardPacket {
    /// The position of the scoreboard. 0: list, 1: sidebar, 2: below name.
    pub position: i8,

    /// The unique name for the scoreboard to be displayed.
    pub name: String,
}

impl View for DisplayScoreboardPacket {
    type V = (i8, Seq<char>);

    open spec fn view(&self) -> Self::V {
        (self.position@, self.name@)
    }
}

impl Encodable for DisplayScoreboardPacket {
    open spec fn wire(v: Self::V) -> Result<Seq<u8>, EncodeError> {
        join(i8::wire(v.0), String::wire(v.1))
    }

    open spec fn parse(bytes: Seq<u8>, at: int) -> Result<(Self::V, int), DecodeError> {
        match i8::parse(bytes, at) {
            Err(e) => Err(e),
            Ok((position, at)) => match String::parse(bytes, at) {
                Err(e) => Err(e),
                Ok((name, at)) => Ok(((position, name), at)),
            },
        }
    }

    open spec fn exact(v: Self::V) -> bool {
        &&& i8::exact(v.0)
        &&& String::exact(v.1)
    }

    proof fn lemma_round_trip(v: Self::V, before: Seq<u8>, after: Seq<u8>) {
        <(i8, String)>::lemma_round_trip((v.0, v.1), before, after);
    }

    fn decode_at(bytes: &[u8], at: usize) -> (r: Result<(Self, usize), DecodeError>) {
        let (position, at) = i8::decode_at(bytes, at)?;
        let (name, at) = String::decode_at(bytes, at)?;
        Ok((DisplayScoreboardPacket { position, name }, at))
    }

    fn encode(&self, writer: &mut BytesMut) -> (r: Result<(), EncodeError>) {
        let start = writer.len();
        encode_field(&self.position, writer, start)?;
        encode_field(&self.name, writer, start)?;
        Ok(())
    }
}

impl Packet for DisplayScoreboardPacket {}

/// Creates and updates teams.
pub struct TeamPacket {
    /// A unique name for the team. (Shared with scoreboard).
    pub name: String,

    /// If 0 then the team is created.
    /// If 1 then the team is removed.
    /// If 2 the team team information is updated.
    /// If 3 then new players are added to the team.
    /// If 4 then players are removed from the team.
    pub mode: i8,
}

impl View for TeamPacket {
    type V = (Seq<char>, i8);

    open spec fn view(&self) -> Self::V {
        (self.name@, self.mode@)
    }
}

impl Encodable for TeamPacket {
    open spec fn wire(v: Self::V) -> Result<Seq<u8>, EncodeError> {
        join(String::wire(v.0), i8::wire(v.1))
    }

    open spec fn parse(bytes: Seq<u8>, at: int) -> Result<(Self::V, int), DecodeError> {
        match String::parse(bytes, at) {
            Err(e) => Err(e),
            Ok((name, at)) => match i8::parse(bytes, at) {
                Err(e) => Err(e),
                Ok((mode, at)) => Ok(((name, mode), at)),
            },
        }
    }

    open spec fn exact(v: Self::V) -> bool {
        &&& String::exact(v.0)
        &&& i8::exact(v.1)
    }

    proof fn lemma_round_trip(v: Self::V, before: Seq<u8>, after: Seq<u8>) {
        <(String, i8)>::lemma_round_trip((v.0, v.1), before, after);
    }

    fn decode_at(bytes: &[u8], at: usize) -> (r: Result<(Self, usize), DecodeError>) {
        let (name, at) = String::decode_at(bytes, at)?;
        let (mode, at) = i8::decode_at(bytes, at)?;
        Ok((TeamPacket { name, mode }, at))
    }

    fn encode(&self, writer: &mut BytesMut) -> (r: Result<(), EncodeError>) {
        let start = writer.len();
        encode_field(&self.name, writer, start)?;
        encode_field(&self.mode, writer, start)?;
        Ok(())
    }
}

impl Packet for TeamPacket {}

/// Mods and plugins can use this to send their data. Minecraft itself uses a number of plugin
/// channels. These internal channels are prefixed with MC|.
///
/// More documentation on this:
/// http://dinnerbone.com/blog/2012/01/13/minecraft-plugin-channels-messaging/
pub struct PluginMessagePacket {
    /// Name of the plugin channel used to send the data.
    pub channel: String,
}

impl View for PluginMessagePacket {
    type V = Seq<char>;

    open spec fn view(&self) -> Self::V {
        self.channel@
    }
}

impl Encodable for PluginMessagePacket {
    open spec fn wire(v: Self::V) -> Result<Seq<u8>, EncodeError> {
        String::wire(v)
    }

    open spec fn parse(bytes: Seq<u8>, at: int) -> Result<(Self::V, int), DecodeError> {
        String::parse(bytes, at)
    }

    open spec fn exact(v: Self::V) -> bool {
        String::exact(v)
    }

    proof fn lemma_round_trip(v: Self::V, before: Seq<u8>, after: Seq<u8>) {
        String::lemma_round_trip(v, before, after);
    }

    fn decode_at(bytes: &[u8], at: usize) -> (r: Result<(Self, usize), DecodeError>) {
        let (channel, at) = String::decode_at(bytes, at)?;
        Ok((PluginMessagePacket { channel }, at))
    }

    fn encode(&self, writer: &mut BytesMut) -> (r: Result<(), EncodeError>) {
        self.channel.encode(writer)
    }
}

impl Packet for PluginMessagePacket {}

/// Changes the difficulty setting in the client's option menu.
pub struct ServerDifficultyPacket {
    /// 0: peaceful, 1: easy, 2: normal, 3: hard.
    pub difficulty: u8,
}

impl View for ServerDifficultyPacket {
    type V = u8;

    open spec fn view(&self) -> Self::V {
        self.difficulty@
    }
}

impl Encodable for ServerDifficultyPacket {
    open spec fn wire(v: Self::V) -> Result<Seq<u8>, EncodeError> {
        u8::wire(v)
    }

    open spec fn parse(bytes: Seq<u8>, at: int) -> Result<(Self::V, int), DecodeError> {
        u8::parse(bytes, at)
    }

    open spec fn exact(v: Self::V) -> bool {
        u8::exact(v)
    }

    proof fn lemma_round_trip(v: Self::V, before: Seq<u8>, after: Seq<u8>) {
        u8::lemma_round_trip(v, before, after);
    }

    fn decode_at(bytes: &[u8], at: usize) -> (r: Result<(Self, usize), DecodeError>) {
        let (difficulty, at) = u8::decode_at(bytes, at)?;
        Ok((ServerDifficultyPacket { difficulty }, at))
    }

    fn encode(&self, writer: &mut BytesMut) -> (r: Result<(), EncodeError>) {
        self.difficulty.encode(writer)
    }
}

impl Packet for ServerDifficultyPacket {}

/// Tells the client that a fight has begun or ended, or that an entity has died.
pub struct CombatEventPacket {
    /// 0: enter combat, 1: end combat, 2: entity dead.
    pub event: VarInt,

    /// Only for entity dead.
    pub message: String,
}

impl View for CombatEventPacket {
    type V = (VarInt, Seq<char>);

    open spec fn view(&self) -> Self::V {
        (self.event@, self.message@)
    }
}

impl Encodable for CombatEventPacket {
    open spec fn wire(v: Self::V) -> Result<Seq<u8>, EncodeError> {
        join(VarInt::wire(v.0), String::wire(v.1))
    }

    open spec fn parse(bytes: Seq<u8>, at: int) -> Result<(Self::V, int), DecodeError> {
        match VarInt::parse(bytes, at) {
            Err(e) => Err(e),
            Ok((event, at)) => match String::parse(bytes, at) {
                Err(e) => Err(e),
                Ok((message, at)) => Ok(((event, message), at)),
            },
        }
    }

    open spec fn exact(v: Self::V) -> bool {
        &&& VarInt::exact(v.0)
        &&& String::exact(v.1)
    }

    proof fn lemma_round_trip(v: Self::V, before: Seq<u8>, after: Seq<u8>) {
        <(VarInt, String)>::lemma_round_trip((v.0, v.1), before, after);
    }

    fn decode_at(bytes: &[u8], at: usize) -> (r: Result<(Self, usize), DecodeError>) {
        let (event, at) = VarInt::decode_at(bytes, at)?;
        let (message, at) = String::decode_at(bytes, at)?;
        Ok((CombatEventPacket { event, message }, at))
    }

    fn encode(&self, writer: &mut BytesMut) -> (r: Result<(), EncodeError>) {
        let start = writer.len();
        encode_field(&self.event, writer, start)?;
        encode_field(&self.message, writer, start)?;
        Ok(())
    }
}

impl Packet for CombatEventPacket {}

/// Sets the entity that the player renders from. This is normally used when the left-clicks an
/// entity while in spectator mode.
///
/// The player's camera will move with the entity and look where it is looking. The entity is often
/// another player, but can be any type of entity. The player is unable to move this entity (move
/// packets will act as if they are coming from the other entity).
///
/// If the given entity is not loaded by the player, this packet is ignored. To return control to
/// the player, send this packet with their entity ID.
///
/// The Notchian server resets this (sends it back to the default entity) whenever the spectated
/// entity is killed or the player sneaks, but only if they were spectating an entity. It also
/// sends this packet whenever the player switches out of spectator mode (even if they weren't
/// spectating an entity).
pub struct CameraPacket {
    /// ID of the entity to set the client's camera to.
    pub id: VarInt,
}

impl View for CameraPacket {
    type V = VarInt;

    open spec fn view(&self) -> Self::V {
        self.id@
    }
}

impl Encodable for CameraPacket {
    open spec fn wire(v: Self::V) -> Result<Seq<u8>, EncodeError> {
        VarInt::wire(v)
    }

    open spec fn parse(bytes: Seq<u8>, at: int) -> Result<(Self::V, int), DecodeError> {
        VarInt::parse(bytes, at)
    }

    open spec fn exact(v: Self::V) -> bool {
        VarInt::exact(v)
    }

    proof fn lemma_round_trip(v: Self::V, before: Seq<u8>, after: Seq<u8>) {
        VarInt::lemma_round_trip(v, before, after);
    }

    fn decode_at(bytes: &[u8], at: usize) -> (r: Result<(Self, usize), DecodeError>) {
        let (id, at) = VarInt::decode_at(bytes, at)?;
        Ok((CameraPacket { id }, at))
    }

    fn encode(&self, writer: &mut BytesMut) -> (r: Result<(), EncodeError>) {
        self.id.encode(writer)
    }
}

impl Packet for CameraPacket {}

/// Changes the border of the world.
pub struct WorldBorderPacket {
    /// Determines the format of the rest of the packet
    pub action: VarInt,
}

impl View for WorldBorderPacket {
    type V = VarInt;

    open spec fn view(&self) -> Self::V {
        self.action@
    }
}

impl Encodable for WorldBorderPacket {
    open spec fn wire(v: Self::V) -> Result<Seq<u8>, EncodeError> {
        VarInt::wire(v)
    }

    open spec fn parse(bytes: Seq<u8>, at: int) -> Result<(Self::V, int), DecodeError> {
        VarInt::parse(bytes, at)
    }

    open spec fn exact(v: Self::V) -> bool {
        VarInt::exact(v)
    }

    proof fn lemma_round_trip(v: Self::V, before: Seq<u8>, after: Seq<u8>) {
        VarInt::lemma_round_trip(v, before, after);
    }

    fn decode_at(bytes: &[u8], at: usize) -> (r: Result<(Self, usize), DecodeError>) {
        let (action, at) = VarInt::decode_at(bytes, at)?;
        Ok((WorldBorderPacket { action }, at))
    }

    fn encode(&self, writer: &mut BytesMut) -> (r: Result<(), EncodeError>) {
        self.action.encode(writer)
    }
}

impl Packet for WorldBorderPacket {}

/// Warning: This packet is completely broken and has been removed in the 1.9 snapshots. The
/// packet Set Compression (Login, 0x03, clientbound) should be used instead.
pub struct SetCompressionPacket {
    pub threshold: VarInt,
}

impl View for SetCompressionPacket {
    type V = VarInt;

    open spec fn view(&self) -> Self::V {
        self.threshold@
    }
}

impl Encodable for SetCompressionPacket {
    open spec fn wire(v: Self::V) -> Result<Seq<u8>, EncodeError> {
        VarInt::wire(v)
    }

    open spec fn parse(bytes: Seq<u8>, at: int) -> Result<(Self::V, int), DecodeError> {
        VarInt::parse(bytes, at)
    }

    open spec fn exact(v: Self::V) -> bool {
        VarInt::exact(v)
    }

    proof fn lemma_round_trip(v: Self::V, before: Seq<u8>, after: Seq<u8>) {
        VarInt::lemma_round_trip(v, before, after);
    }

    fn decode_at(bytes: &[u8], at: usize) -> (r: Result<(Self, usize), DecodeError>) {
        let (threshold, at) = VarInt::decode_at(bytes, at)?;
        Ok((SetCompressionPacket { threshold }, at))
    }

    fn encode(&self, writer: &mut BytesMut) -> (r: Result<(), EncodeError>) {
        self.threshold.encode(writer)
    }
}

impl Packet for SetCompressionPacket {}

/// Offers the client a resource pack.
pub struct ResourcePackSendPacket {
    /// The URL to the resource pack.
    pub url: String,

    /// A 40 character hexadecimal and lowercase SHA-1 hash of the resource pack file. (must be
    /// lower case in order to work)
    ///
    /// If it's not a 40 character hexadecimal string, the client will not use it for hash
    /// verification and likely waste bandwidth - but it will still treat it as a unique id
    pub hash: String,
}

impl View for ResourcePackSendPacket {
    type V = (Seq<char>, Seq<char>);

    open spec fn view(&self) -> Self::V {
        (self.url@, self.hash@)
    }
}

impl Encodable for ResourcePackSendPacket {
    open spec fn wire(v: Self::V) -> Result<Seq<u8>, EncodeError> {
        join(String::wire(v.0), String::wire(v.1))
    }

    open spec fn parse(bytes: Seq<u8>, at: int) -> Result<(Self::V, int), DecodeError> {
        match String::parse(bytes, at) {
            Err(e) => Err(e),
            Ok((url, at)) => match String::parse(bytes, at) {
                Err(e) => Err(e),
                Ok((hash, at)) => Ok(((url, hash), at)),
            },
        }
    }

    open spec fn exact(v: Self::V) -> bool {
        &&& String::exact(v.0)
        &&& String::exact(v.1)
    }

    proof fn lemma_round_trip(v: Self::V, before: Seq<u8>, after: Seq<u8>) {
        <(String, String)>::lemma_round_trip((v.0, v.1), before, after);
    }

    fn decode_at(bytes: &[u8], at: usize) -> (r: Result<(Self, usize), DecodeError>) {
        let (url, at) = String::decode_at(bytes, at)?;
        let (hash, at) = String::decode_at(bytes, at)?;
        Ok((ResourcePackSendPacket { url, hash }, at))
    }

    fn encode(&self, writer: &mut BytesMut) -> (r: Result<(), EncodeError>) {
        let start = writer.len();
        encode_field(&self.url, writer, start)?;
        encode_field(&self.hash, writer, start)?;
        Ok(())
    }
}

impl Packet for ResourcePackSendPacket {}

/// Changes the data that is attached to an entity.
pub struct UpdateEntityNBTPacket {
    pub id: VarInt,
}

impl View for UpdateEntityNBTPacket {
    type V = VarInt;

    open spec fn view(&self) -> Self::V {
        self.id@
    }
}

impl Encodable for UpdateEntityNBTPacket {
    open spec fn wire(v: Self::V) -> Result<Seq<u8>, EncodeError> {
        VarInt::wire(v)
    }

    open spec fn parse(bytes: Seq<u8>, at: int) -> Result<(Self::V, int), DecodeError> {
        VarInt::parse(bytes, at)
    }

    open spec fn exact(v: Self::V) -> bool {
        VarInt::exact(v)
    }

    proof fn lemma_round_trip(v: Self::V, before: Seq<u8>, after: Seq<u8>) {
        VarInt::lemma_round_trip(v, before, after);
    }

    fn decode_at(bytes: &[u8], at: usize) -> (r: Result<(Self, usize), DecodeError>) {
        let (id, at) = VarInt::decode_at(bytes, at)?;
        Ok((UpdateEntityNBTPacket { id }, at))
    }

    fn encode(&self, writer: &mut BytesMut) -> (r: Result<(), EncodeError>) {
        self.id.encode(writer)
    }
}

impl Packet for UpdateEntityNBTPacket {}

} // verus!
