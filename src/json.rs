//! The JSON document model that messages of the agent are read into.
use vstd::prelude::*;

use crate::block::str_eq;

verus! {

/// A JSON document. Numbers that fit a signed 64-bit integer are `Integer`;
/// every other number is `Float`, held as the bits of its IEEE-754 double.
/// An object keeps its members in order.
#[derive(Debug)]
pub enum JsonValue {
    Null,
    Bool(bool),
    Integer(i64),
    Float(u64),
    String(String),
    Array(Vec<JsonValue>),
    Object(Vec<JsonMember>),
}

#[derive(Debug)]
pub struct JsonMember {
    pub name: String,
    pub value: JsonValue,
}

/// A JSON document as mathematical values.
pub enum Json {
    Null,
    Bool(bool),
    Int(int),
    Float(u64),
    Str(Seq<char>),
    Array(Seq<Json>),
    Object(Seq<(Seq<char>, Json)>),
}

/// The mathematical value of a `JsonValue`.
pub open spec fn json_model(v: JsonValue) -> Json
    decreases v,
{
    match v {
        JsonValue::Null => Json::Null,
        JsonValue::Bool(b) => Json::Bool(b),
        JsonValue::Integer(n) => Json::Int(n as int),
        JsonValue::Float(b) => Json::Float(b),
        JsonValue::String(s) => Json::Str(s@),
        JsonValue::Array(items) => Json::Array(
            Seq::new(
                items@.len(),
                |i: int|
                    if 0 <= i < items@.len() {
                        json_model(items@[i])
                    } else {
                        Json::Null
                    },
            ),
        ),
        JsonValue::Object(members) => Json::Object(
            Seq::new(
                members@.len(),
                |i: int|
                    if 0 <= i < members@.len() {
                        (members@[i].name@, json_model(members@[i].value))
                    } else {
                        (Seq::empty(), Json::Null)
                    },
            ),
        ),
    }
}

impl View for JsonValue {
    type V = Json;

    open spec fn view(&self) -> Json {
        json_model(*self)
    }
}

/// The index of the first member called `name`.
#[verifier::opaque]
pub open spec fn member_index(members: Seq<(Seq<char>, Json)>, name: Seq<char>) -> Option<int> {
    if exists|i: int| 0 <= i < members.len() && members[i].0 == name {
        Some(
            choose|i: int|
                0 <= i < members.len() && members[i].0 == name && forall|j: int|
                    0 <= j < i ==> members[j].0 != name,
        )
    } else {
        None
    }
}

/// The index of the first member called `name`.
pub fn find_member(members: &Vec<JsonMember>, name: &str) -> (r: Option<usize>)
    ensures
        ({
            let ms = members@.map_values(|m: JsonMember| (m.name@, m.value@));
            match r {
                Some(i) => i < members@.len() && member_index(ms, name@) == Some(i as int),
                None => member_index(ms, name@).is_none(),
            }
        }),
{
    reveal(member_index);
    let ghost ms = members@.map_values(|m: JsonMember| (m.name@, m.value@));
    let mut i: usize = 0;
    while i < members.len()
        invariant
            i <= members@.len(),
            ms == members@.map_values(|m: JsonMember| (m.name@, m.value@)),
            forall|j: int| 0 <= j < i ==> ms[j].0 != name@,
        decreases members@.len() - i,
    {
        if str_eq(members[i].name.as_str(), name) {
            proof {
                reveal(member_index);
            }
            let ghost k = choose|k: int|
                0 <= k < ms.len() && ms[k].0 == name@ && forall|j: int|
                    0 <= j < k ==> ms[j].0 != name@;
            assert(ms[i as int].0 == name@);
            assert(k == i as int) by {
                if k > i as int {
                    assert(ms[i as int].0 != name@);
                }
            }
            return Some(i);
        }
        i = i + 1;
    }
    assert(member_index(ms, name@).is_none());
    None
}

} // verus!
