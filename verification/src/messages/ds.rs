//! Messages from the driver station to the robot over the TCP channel:
//! tags, each framed by a length and a type id.

pub mod tcp;

use crate::joystick::JoystickType;
use crate::packet::{append_be_u16, append_slice, u16_be};
use crate::states::MatchType;
use vstd::prelude::*;
use vstd::utf8::encode_utf8;

verus! {

/// The type id of the match information tag.
pub const MATCH_INFO_ID: u8 = 0x07;

/// The type id of the game data tag.
pub const GAME_DATA_ID: u8 = 0x0e;

/// The length field of a frame around `payload_len` bytes of payload: the
/// type id is counted, and the count is taken modulo 2^16 to fit the field.
pub open spec fn frame_len(payload_len: nat) -> u16 {
    ((1 + payload_len) % 0x1_0000) as u16
}

/// A tag on the wire: the big-endian length of what follows, the type id,
/// the payload.
pub open spec fn framed(id: u8, payload: Seq<u8>) -> Seq<u8> {
    u16_be(frame_len(payload.len())) + seq![id] + payload
}

/// Frames a payload: the big-endian length of the id and the payload, the
/// id, the payload.
pub fn frame(id: u8, payload: Vec<u8>) -> (packet: Vec<u8>)
    ensures
        packet@ == framed(id, payload@),
{
    let mut buf: Vec<u8> = Vec::new();
    buf.push(id);
    let mut payload = payload;
    buf.append(&mut payload);

    let len = buf.len();
    let mut packet: Vec<u8> = Vec::new();
    append_be_u16(&mut packet, (len % 0x1_0000) as u16);
    packet.append(&mut buf);
    packet
}

/// What every outbound tag can do: name its type id and give its payload.
/// The frame around them is the same for all.
pub trait Tag {
    /// The type id of the tag.
    spec fn tag_id(&self) -> u8;

    /// The payload of the tag.
    spec fn payload(&self) -> Seq<u8>;

    /// The type id of the tag.
    fn id(&self) -> (id: u8)
        ensures
            id == self.tag_id(),
    ;

    /// The payload of the tag.
    fn as_bytes(&self) -> (bytes: Vec<u8>)
        ensures
            bytes@ == self.payload(),
    ;

    /// The tag as it goes on the wire.
    fn to_packet(&self) -> (packet: Vec<u8>)
        ensures
            packet@ == framed(self.tag_id(), self.payload()),
    {
        frame(self.id(), self.as_bytes())
    }
}

/// The description of one joystick. Its encoding is not defined yet.
#[derive(Debug, PartialEq, Eq)]
pub struct JoystickDescriptor {
    pub index: u8,
    pub is_xbox: bool,
    pub stick_type: JoystickType,
    pub name: String,
    pub axis_count: u8,
    pub axis_types: Vec<u8>,
    pub button_count: u8,
    pub pov_count: u8,
}

/// The name of the competition and the kind of match.
#[derive(Debug, PartialEq, Eq)]
pub struct MatchInfo {
    pub competition: String,
    pub match_type: MatchType,
}

impl Clone for MatchInfo {
    fn clone(&self) -> (copy: MatchInfo)
        ensures
            copy == *self,
    {
        MatchInfo { competition: self.competition.clone(), match_type: self.match_type }
    }
}

impl Tag for MatchInfo {
    open spec fn tag_id(&self) -> u8 {
        MATCH_INFO_ID
    }

    /// The UTF-8 bytes of the competition name, then the ordinal of the
    /// match kind.
    open spec fn payload(&self) -> Seq<u8> {
        encode_utf8(self.competition@) + seq![self.match_type.ordinal()]
    }

    fn id(&self) -> (id: u8) {
        MATCH_INFO_ID
    }

    fn as_bytes(&self) -> (bytes: Vec<u8>) {
        let mut buf: Vec<u8> = Vec::new();
        append_slice(&mut buf, self.competition.as_str().as_bytes());
        buf.push(self.match_type.to_u8());
        buf
    }
}

/// The game-specific data string.
#[derive(Debug, PartialEq, Eq)]
pub struct GameData {
    data: String,
}

impl GameData {
    /// The text of the game data.
    pub closed spec fn text(&self) -> Seq<char> {
        self.data@
    }

    /// The game data tag for `data`.
    pub fn new(data: String) -> (tag: GameData)
        ensures
            tag.text() == data@,
    {
        GameData { data }
    }
}

impl Tag for GameData {
    open spec fn tag_id(&self) -> u8 {
        GAME_DATA_ID
    }

    /// The UTF-8 bytes of the text, of any length.
    open spec fn payload(&self) -> Seq<u8> {
        encode_utf8(self.text())
    }

    fn id(&self) -> (id: u8) {
        GAME_DATA_ID
    }

    fn as_bytes(&self) -> (bytes: Vec<u8>) {
        let mut buf: Vec<u8> = Vec::new();
        append_slice(&mut buf, self.data.as_str().as_bytes());
        buf
    }
}

/// A tag that the driver station sends to the robot.
#[derive(Debug, PartialEq, Eq)]
pub enum TcpTag {
    JoystickDescriptor(JoystickDescriptor),
    MatchInfo(MatchInfo),
    GameData(GameData),
}

impl TcpTag {
    /// The bytes that the tag puts on the wire. A joystick descriptor
    /// puts none.
    pub open spec fn wire(&self) -> Seq<u8> {
        match self {
            TcpTag::JoystickDescriptor(_) => Seq::empty(),
            TcpTag::MatchInfo(info) => framed(info.tag_id(), info.payload()),
            TcpTag::GameData(data) => framed(data.tag_id(), data.payload()),
        }
    }

    /// The tag as it goes on the wire.
    pub fn to_packet(&self) -> (packet: Vec<u8>)
        ensures
            packet@ == self.wire(),
    {
        match self {
            TcpTag::JoystickDescriptor(_) => Vec::new(),
            TcpTag::MatchInfo(info) => info.to_packet(),
            TcpTag::GameData(data) => data.to_packet(),
        }
    }
}

} // verus!
