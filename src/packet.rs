//! The envelope of messages from agents, and narrowing an envelope to the
//! packet kind its tag names.
use vstd::prelude::*;

use crate::block::str_eq;
use crate::json::{find_member, member_index, Json, JsonMember, JsonValue};

verus! {

/// Types of packet.
#[derive(Clone, Copy, Debug, PartialEq, Eq, Structural)]
pub enum PacketType {
    /// The agent failed catastrophically and will reboot.
    Panic,
    /// A dump of the agent's walk-back memory.
    Walkback,
    /// The agent did not tag the message, or tagged it with an unknown tag.
    Unknown,
    /// A free-form diagnostic message.
    Debugging,
}

/// Why a message could not be read as the packet asked for.
#[derive(Clone, Copy, Debug, PartialEq, Eq, Structural)]
pub enum PacketError {
    /// The envelope's tag names another kind of packet.
    WrongPacketType,
    /// The envelope lacks a field, or a field has the wrong type.
    Malformed,
    /// The payload does not have the shape its kind asks for.
    BadPayload,
}

/// The kind of packet a tag names. Tags outside the known set name
/// `Unknown`, so an envelope never fails on its tag.
pub open spec fn tag_type(tag: Seq<char>) -> PacketType {
    if tag == "panic"@ {
        PacketType::Panic
    } else if tag == "walkback"@ {
        PacketType::Walkback
    } else if tag == "debugging"@ {
        PacketType::Debugging
    } else {
        PacketType::Unknown
    }
}

impl PacketType {
    /// The kind of packet a tag names; unknown tags give `Unknown`.
    pub fn from_tag(tag: &str) -> (r: PacketType)
        ensures
            r == tag_type(tag@),
    {
        if str_eq(tag, "panic") {
            PacketType::Panic
        } else if str_eq(tag, "walkback") {
            PacketType::Walkback
        } else if str_eq(tag, "debugging") {
            PacketType::Debugging
        } else {
            PacketType::Unknown
        }
    }
}

/// A message from an agent whose payload is not yet read. Narrow it into one
/// of the packet kinds before using it.
#[derive(Debug)]
pub struct RawTurtlePacket {
    /// The agent that sent this packet.
    from: u16,
    /// The id of the message.
    uuid: String,
    /// What kind of packet this is.
    packet_type: PacketType,
    /// The payload, not yet read.
    inner_data: String,
}

/// The fields of an envelope, as (sender, message id, tag, payload).
pub open spec fn envelope_fields(j: Json) -> Option<(u16, Seq<char>, Seq<char>, Seq<char>)> {
    match j {
        Json::Object(ms) => {
            let i = member_index(ms, "id"@);
            let u = member_index(ms, "uuid"@);
            let t = member_index(ms, "packet_type"@);
            let d = member_index(ms, "inner_data"@);
            if i is Some && u is Some && t is Some && d is Some {
                match (ms[i.unwrap()].1, ms[u.unwrap()].1, ms[t.unwrap()].1, ms[d.unwrap()].1) {
                    (Json::Int(id), Json::Str(uuid), Json::Str(tag), Json::Str(data)) => if 0 <= id
                        <= u16::MAX {
                        Some((id as u16, uuid, tag, data))
                    } else {
                        None
                    },
                    _ => None,
                }
            } else {
                None
            }
        },
        _ => None,
    }
}

fn member_str<'a>(members: &'a Vec<JsonMember>, i: usize) -> (r: Option<&'a String>)
    requires
        i < members@.len(),
    ensures
        match r {
            Some(s) => members@[i as int].value@ == Json::Str(s@),
            None => !(members@[i as int].value@ is Str),
        },
{
    match &members[i].value {
        JsonValue::String(s) => Some(s),
        _ => None,
    }
}

impl RawTurtlePacket {
    pub closed spec fn sender(&self) -> u16 {
        self.from
    }

    pub closed spec fn message_id(&self) -> Seq<char> {
        self.uuid@
    }

    pub closed spec fn kind(&self) -> PacketType {
        self.packet_type
    }

    pub closed spec fn payload(&self) -> Seq<char> {
        self.inner_data@
    }

    pub fn new(from: u16, uuid: String, packet_type: PacketType, inner_data: String) -> (r: Self)
        ensures
            r.sender() == from,
            r.message_id() == uuid@,
            r.kind() == packet_type,
            r.payload() == inner_data@,
    {
        RawTurtlePacket { from, uuid, packet_type, inner_data }
    }

    /// Read an envelope `{"id", "uuid", "packet_type", "inner_data"}`. Its tag
    /// may be any text: one outside the known set gives an `Unknown` packet.
    pub fn from_json(j: &JsonValue) -> (r: Result<RawTurtlePacket, PacketError>)
        ensures
            match envelope_fields(j@) {
                Some((id, uuid, tag, data)) => r is Ok && r->Ok_0.sender() == id
                    && r->Ok_0.message_id() == uuid && r->Ok_0.kind() == tag_type(tag)
                    && r->Ok_0.payload() == data,
                None => r == Err::<RawTurtlePacket, PacketError>(PacketError::Malformed),
            },
    {
        let members = match j {
            JsonValue::Object(m) => m,
            _ => return Err(PacketError::Malformed),
        };
        let ghost ms = j@->Object_0;
        assert(members@.map_values(|m: JsonMember| (m.name@, m.value@)) =~= ms);
        let (i, u, t, d) = match (
            find_member(members, "id"),
            find_member(members, "uuid"),
            find_member(members, "packet_type"),
            find_member(members, "inner_data"),
        ) {
            (Some(i), Some(u), Some(t), Some(d)) => (i, u, t, d),
            _ => return Err(PacketError::Malformed),
        };
        let id = match &members[i].value {
            JsonValue::Integer(n) => {
                if *n < 0 || *n > 65535 {
                    return Err(PacketError::Malformed);
                }
                *n as u16
            },
            _ => return Err(PacketError::Malformed),
        };
        let (uuid, tag, data) = match (member_str(members, u), member_str(members, t), member_str(members, d)) {
            (Some(a), Some(b), Some(c)) => (a, b, c),
            _ => return Err(PacketError::Malformed),
        };
        Ok(
            RawTurtlePacket {
                from: id,
                uuid: uuid.clone(),
                packet_type: PacketType::from_tag(tag.as_str()),
                inner_data: data.clone(),
            },
        )
    }

    /// Get the kind of this packet, to decide how to narrow it.
    pub fn packet_type(&self) -> (r: &PacketType)
        ensures
            *r == self.kind(),
    {
        &self.packet_type
    }

    /// The agent that sent the packet.
    pub fn from_id(&self) -> (r: u16)
        ensures
            r == self.sender(),
    {
        self.from
    }

    /// The message id, taking the packet apart.
    pub fn into_uuid(self) -> (r: String)
        ensures
            r@ == self.message_id(),
    {
        self.uuid
    }

    /// The payload, not yet read.
    pub fn inner_data(&self) -> (r: &String)
        ensures
            r@ == self.payload(),
    {
        &self.inner_data
    }
}

/// The packet of an agent whose message was not tagged as expected. Nothing
/// in it is guaranteed to be valid, not even the sender.
#[derive(Debug)]
pub struct UnknownPacket {
    /// The agent that sent this packet.
    pub from: u16,
    /// The id of the message.
    pub uuid: String,
    /// The payload, as raw text.
    pub unknown_data: String,
}

impl UnknownPacket {
    /// Narrow an envelope tagged `Unknown`. Fails with `WrongPacketType`
    /// exactly when the tag is another one.
    pub fn try_from(value: RawTurtlePacket) -> (r: Result<UnknownPacket, PacketError>)
        ensures
            value.kind() != PacketType::Unknown <==> r == Err::<UnknownPacket, PacketError>(
                PacketError::WrongPacketType,
            ),
            value.kind() == PacketType::Unknown ==> r is Ok,
            r is Ok ==> r->Ok_0.from == value.sender() && r->Ok_0.uuid@ == value.message_id()
                && r->Ok_0.unknown_data@ == value.payload(),
    {
        if value.packet_type != PacketType::Unknown {
            return Err(PacketError::WrongPacketType);
        }
        Ok(UnknownPacket { from: value.from, uuid: value.uuid, unknown_data: value.inner_data })
    }
}

/// A diagnostic message that an agent sends; it holds a single text.
#[derive(Debug)]
pub struct DebuggingPacket {
    /// The agent that sent this packet.
    pub from: u16,
    /// The id of the message.
    pub uuid: String,
    /// The message.
    pub debug_message: String,
}

impl DebuggingPacket {
    /// Narrow an envelope tagged `Debugging`. Fails with `WrongPacketType`
    /// exactly when the tag is another one.
    pub fn try_from(value: RawTurtlePacket) -> (r: Result<DebuggingPacket, PacketError>)
        ensures
            value.kind() != PacketType::Debugging <==> r == Err::<DebuggingPacket, PacketError>(
                PacketError::WrongPacketType,
            ),
            value.kind() == PacketType::Debugging ==> r is Ok,
            r is Ok ==> r->Ok_0.from == value.sender() && r->Ok_0.uuid@ == value.message_id()
                && r->Ok_0.debug_message@ == value.payload(),
    {
        if value.packet_type != PacketType::Debugging {
            return Err(PacketError::WrongPacketType);
        }
        Ok(DebuggingPacket { from: value.from, uuid: value.uuid, debug_message: value.inner_data })
    }
}

} // verus!
