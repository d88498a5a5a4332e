//! The report an agent sends when its script fails: a trace, snapshots of its
//! local and closure variables, and whatever else it adds.
use vstd::prelude::*;

use crate::block::str_eq;
use crate::json::{find_member, member_index, Json, JsonMember, JsonValue};
use crate::lua::{json_to_lua, lua_model, LuaModel, LuaPackedTable, LuaValue};
use crate::packet::{PacketError, PacketType, RawTurtlePacket};

verus! {

/// What an agent reports when it fails.
#[derive(Debug)]
pub struct LuaPanic {
    pub stack_trace: String,
    pub locals: LuaPackedTable,
    pub up_values: LuaPackedTable,
    /// Every other field of the report, in order.
    pub unknown_extra_data: Vec<(String, LuaValue)>,
}

/// A failure report as mathematical values.
pub struct PanicModel {
    pub stack_trace: Seq<char>,
    pub locals: Seq<(LuaModel, LuaModel)>,
    pub up_values: Seq<(LuaModel, LuaModel)>,
    pub extra: Seq<(Seq<char>, LuaModel)>,
}

pub open spec fn table_model(t: LuaPackedTable) -> Seq<(LuaModel, LuaModel)> {
    lua_model(LuaValue::Table(t))->Table_0
}

impl View for LuaPanic {
    type V = PanicModel;

    open spec fn view(&self) -> PanicModel {
        PanicModel {
            stack_trace: self.stack_trace@,
            locals: table_model(self.locals),
            up_values: table_model(self.up_values),
            extra: self.unknown_extra_data@.map_values(|e: (String, LuaValue)| (e.0@, e.1@)),
        }
    }
}

pub open spec fn known_field(name: Seq<char>) -> bool {
    name == "stack_trace"@ || name == "locals"@ || name == "up_values"@
}

/// The members other than the three known ones, each read as a value; `None`
/// when one of them is not a value.
pub open spec fn extra_fields(ms: Seq<(Seq<char>, Json)>) -> Option<Seq<(Seq<char>, LuaModel)>>
    decreases ms.len(),
{
    if ms.len() == 0 {
        Some(Seq::empty())
    } else {
        match extra_fields(ms.drop_last()) {
            None => None,
            Some(prev) => if known_field(ms.last().0) {
                Some(prev)
            } else {
                match json_to_lua(ms.last().1) {
                    Some(v) => Some(prev.push((ms.last().0, v))),
                    None => None,
                }
            },
        }
    }
}

/// The table a member holds, if it holds one.
pub open spec fn table_member(ms: Seq<(Seq<char>, Json)>, name: Seq<char>) -> Option<Seq<(LuaModel, LuaModel)>> {
    let i = member_index(ms, name);
    if i is Some {
        match json_to_lua(ms[i.unwrap()].1) {
            Some(LuaModel::Table(ps)) => Some(ps),
            _ => None,
        }
    } else {
        None
    }
}

/// The report that a payload document denotes.
pub open spec fn panic_of(j: Json) -> Option<PanicModel> {
    match j {
        Json::Object(ms) => {
            let s = member_index(ms, "stack_trace"@);
            let l = table_member(ms, "locals"@);
            let u = table_member(ms, "up_values"@);
            let e = extra_fields(ms);
            if s is Some && ms[s.unwrap()].1 is Str && l is Some && u is Some && e is Some {
                Some(
                    PanicModel {
                        stack_trace: ms[s.unwrap()].1->Str_0,
                        locals: l.unwrap(),
                        up_values: u.unwrap(),
                        extra: e.unwrap(),
                    },
                )
            } else {
                None
            }
        },
        _ => None,
    }
}

proof fn lemma_extra_none_grows(ms: Seq<(Seq<char>, Json)>, k: int)
    requires
        0 <= k <= ms.len(),
        extra_fields(ms.subrange(0, k)) is None,
    ensures
        extra_fields(ms) is None,
    decreases ms.len() - k,
{
    if k < ms.len() {
        let next = ms.subrange(0, k + 1);
        assert(next.drop_last() =~= ms.subrange(0, k));
        lemma_extra_none_grows(ms, k + 1);
    } else {
        assert(ms.subrange(0, k) =~= ms);
    }
}

fn read_table(members: &Vec<JsonMember>, name: &str) -> (r: Option<LuaPackedTable>)
    ensures
        match r {
            Some(t) => table_member(
                members@.map_values(|m: JsonMember| (m.name@, m.value@)),
                name@,
            ) == Some(table_model(t)),
            None => table_member(members@.map_values(|m: JsonMember| (m.name@, m.value@)), name@) is None,
        },
{
    let ghost ms = members@.map_values(|m: JsonMember| (m.name@, m.value@));
    match find_member(members, name) {
        Some(i) => {
            assert(ms[i as int].1 == members@[i as int].value@);
            match LuaValue::from_json(&members[i].value) {
                Some(LuaValue::Table(t)) => Some(t),
                _ => None,
            }
        },
        None => None,
    }
}

impl LuaPanic {
    /// Read a failure report from its payload document.
    pub fn from_json(j: &JsonValue) -> (r: Option<LuaPanic>)
        ensures
            match r {
                Some(p) => panic_of(j@) == Some(p@),
                None => panic_of(j@) is None,
            },
    {
        let members = match j {
            JsonValue::Object(m) => m,
            _ => return None,
        };
        let ghost ms = j@->Object_0;
        assert(members@.map_values(|m: JsonMember| (m.name@, m.value@)) =~= ms);
        let stack_trace = match find_member(members, "stack_trace") {
            Some(i) => match &members[i].value {
                JsonValue::String(s) => s.clone(),
                _ => return None,
            },
            None => return None,
        };
        let locals = match read_table(members, "locals") {
            Some(t) => t,
            None => return None,
        };
        let up_values = match read_table(members, "up_values") {
            Some(t) => t,
            None => return None,
        };
        let mut extra: Vec<(String, LuaValue)> = Vec::new();
        let mut i: usize = 0;
        while i < members.len()
            invariant
                ms == members@.map_values(|m: JsonMember| (m.name@, m.value@)),
                j@ == Json::Object(ms),
                i <= members@.len(),
                extra_fields(ms.subrange(0, i as int)) == Some(
                    extra@.map_values(|e: (String, LuaValue)| (e.0@, e.1@)),
                ),
            decreases members@.len() - i,
        {
            let ghost prev = extra@.map_values(|e: (String, LuaValue)| (e.0@, e.1@));
            let ghost next = ms.subrange(0, i + 1);
            assert(next.drop_last() =~= ms.subrange(0, i as int));
            assert(next.last() == ms[i as int]);
            let name = members[i].name.as_str();
            if !(str_eq(name, "stack_trace") || str_eq(name, "locals") || str_eq(name, "up_values")) {
                match LuaValue::from_json(&members[i].value) {
                    Some(v) => {
                        extra.push((members[i].name.clone(), v));
                        assert(extra@.map_values(|e: (String, LuaValue)| (e.0@, e.1@)) =~= prev.push(
                            (ms[i as int].0, json_to_lua(ms[i as int].1).unwrap()),
                        ));
                    },
                    None => {
                        assert(ms[i as int] == (members@[i as int].name@, members@[i as int].value@));
                        assert(!known_field(ms[i as int].0));
                        assert(extra_fields(next) is None);
                        proof {
                            lemma_extra_none_grows(ms, i + 1);
                        }
                        assert(j@ == Json::Object(ms));
                        return None;
                    },
                }
            }
            i = i + 1;
        }
        assert(ms.subrange(0, members@.len() as int) =~= ms);
        Some(LuaPanic { stack_trace, locals, up_values, unknown_extra_data: extra })
    }
}

/// The packet an agent sends when it fails catastrophically. The agent
/// reboots afterwards and has to be set up again.
#[derive(Debug)]
pub struct PanicPacket {
    /// The agent that sent this packet.
    pub from: u16,
    /// The id of the message.
    pub uuid: String,
    /// The failure report.
    pub panic_data: LuaPanic,
}

impl PanicPacket {
    /// Narrow an envelope tagged `Panic`, reading its report from `payload`,
    /// the document that the envelope's payload text holds. Fails with
    /// `WrongPacketType` exactly when the tag is another one.
    pub fn try_from(value: RawTurtlePacket, payload: &JsonValue) -> (r: Result<PanicPacket, PacketError>)
        ensures
            value.kind() != PacketType::Panic <==> r == Err::<PanicPacket, PacketError>(
                PacketError::WrongPacketType,
            ),
            value.kind() == PacketType::Panic ==> match r {
                Ok(p) => p.from == value.sender() && p.uuid@ == value.message_id() && panic_of(
                    payload@,
                ) == Some(p.panic_data@),
                Err(e) => e == PacketError::BadPayload && panic_of(payload@) is None,
            },
    {
        if *value.packet_type() != PacketType::Panic {
            return Err(PacketError::WrongPacketType);
        }
        match LuaPanic::from_json(payload) {
            Some(panic_data) => Ok(
                PanicPacket { from: value.from_id(), uuid: value.into_uuid(), panic_data },
            ),
            None => Err(PacketError::BadPayload),
        }
    }
}

} // verus!
