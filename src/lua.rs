//! Values of the agent's scripting environment and their JSON form.
//!
//! A table is written as `{"pairs": [{"key": k, "value": v}, ...]}`, so that
//! keys of any type and the order of the pairs survive the trip. Reading a
//! document tries the variants in a fixed order: table, string, integer,
//! float, boolean, null.
use vstd::prelude::*;

use crate::json::{find_member, member_index, Json, JsonMember, JsonValue};

verus! {

/// A value of the agent's scripting environment.
#[derive(Debug)]
pub enum LuaValue {
    Table(LuaPackedTable),
    String(String),
    Integer(i64),
    /// A floating-point number, held as the bits of its IEEE-754 double.
    Float(u64),
    Bool(bool),
    Null,
}

/// A table as its key/value pairs, in order.
#[derive(Debug)]
pub struct LuaPackedTable {
    pub pairs: Vec<LuaKeyValuePair>,
}

/// One pair of a table. Either side may itself be a table.
#[derive(Debug)]
pub struct LuaKeyValuePair {
    pub key: LuaValue,
    pub value: LuaValue,
}

/// A value as mathematical data.
pub enum LuaModel {
    Table(Seq<(LuaModel, LuaModel)>),
    Str(Seq<char>),
    Int(int),
    Float(u64),
    Bool(bool),
    Nil,
}

/// The mathematical value of a `LuaValue`.
pub open spec fn lua_model(v: LuaValue) -> LuaModel
    decreases v,
{
    match v {
        LuaValue::Table(t) => LuaModel::Table(
            Seq::new(
                t.pairs@.len(),
                |i: int|
                    if 0 <= i < t.pairs@.len() {
                        (lua_model(t.pairs@[i].key), lua_model(t.pairs@[i].value))
                    } else {
                        (LuaModel::Nil, LuaModel::Nil)
                    },
            ),
        ),
        LuaValue::String(s) => LuaModel::Str(s@),
        LuaValue::Integer(n) => LuaModel::Int(n as int),
        LuaValue::Float(b) => LuaModel::Float(b),
        LuaValue::Bool(b) => LuaModel::Bool(b),
        LuaValue::Null => LuaModel::Nil,
    }
}

impl View for LuaValue {
    type V = LuaModel;

    open spec fn view(&self) -> LuaModel {
        lua_model(*self)
    }
}

/// The JSON form of a value.
pub open spec fn lua_to_json(m: LuaModel) -> Json
    decreases m,
{
    match m {
        LuaModel::Table(ps) => Json::Object(
            seq![
                (
                    "pairs"@,
                    Json::Array(
                        Seq::new(
                            ps.len(),
                            |i: int|
                                if 0 <= i < ps.len() {
                                    Json::Object(
                                        seq![
                                            ("key"@, lua_to_json(ps[i].0)),
                                            ("value"@, lua_to_json(ps[i].1)),
                                        ],
                                    )
                                } else {
                                    Json::Null
                                },
                        ),
                    ),
                ),
            ],
        ),
        LuaModel::Str(s) => Json::Str(s),
        LuaModel::Int(n) => Json::Int(n),
        LuaModel::Float(b) => Json::Float(b),
        LuaModel::Bool(b) => Json::Bool(b),
        LuaModel::Nil => Json::Null,
    }
}

/// The pair that an element of a table's `pairs` array denotes: an object
/// with a `key` and a `value` member, each a value.
#[verifier::rlimit(40)]
pub open spec fn json_to_pair(item: Json) -> Option<(LuaModel, LuaModel)>
    decreases item,
{
    match item {
        Json::Object(pm) => {
            let ki = member_index(pm, "key"@);
            let vi = member_index(pm, "value"@);
            if ki is Some && vi is Some && 0 <= ki.unwrap() < pm.len() && 0 <= vi.unwrap()
                < pm.len() {
                match (json_to_lua(pm[ki.unwrap()].1), json_to_lua(pm[vi.unwrap()].1)) {
                    (Some(k), Some(v)) => Some((k, v)),
                    _ => None,
                }
            } else {
                None
            }
        },
        _ => None,
    }
}

/// The pairs that the elements of a table's `pairs` array denote, one per
/// element.
pub open spec fn pair_results(items: Seq<Json>) -> Seq<Option<(LuaModel, LuaModel)>>
    decreases items,
{
    Seq::new(
        items.len(),
        |i: int|
            if 0 <= i < items.len() {
                json_to_pair(items[i])
            } else {
                None
            },
    )
}

/// The value that a JSON document denotes, trying table, string, integer,
/// float, boolean and null in that order; `None` when none fits.
pub open spec fn json_to_lua(j: Json) -> Option<LuaModel>
    decreases j,
{
    match j {
        Json::Object(ms) => {
            let p = member_index(ms, "pairs"@);
            if p is Some && 0 <= p.unwrap() < ms.len() {
                match ms[p.unwrap()].1 {
                    Json::Array(items) => {
                        let decoded = pair_results(items);
                        if forall|i: int| 0 <= i < decoded.len() ==> (#[trigger] decoded[i]) is Some {
                            Some(LuaModel::Table(Seq::new(decoded.len(), |i: int| decoded[i].unwrap())))
                        } else {
                            None
                        }
                    },
                    _ => None,
                }
            } else {
                None
            }
        },
        Json::Str(s) => Some(LuaModel::Str(s)),
        Json::Int(n) => Some(LuaModel::Int(n)),
        Json::Float(b) => Some(LuaModel::Float(b)),
        Json::Bool(b) => Some(LuaModel::Bool(b)),
        Json::Null => Some(LuaModel::Nil),
        Json::Array(_) => None,
    }
}

proof fn lemma_single_member(ms: Seq<(Seq<char>, Json)>, name: Seq<char>)
    requires
        ms.len() >= 1,
        ms[0].0 == name,
    ensures
        member_index(ms, name) == Some(0int),
{
    reveal(member_index);
    let k = choose|i: int|
        0 <= i < ms.len() && ms[i].0 == name && forall|j: int| 0 <= j < i ==> ms[j].0 != name;
    assert(0 <= 0 < ms.len() && ms[0].0 == name);
    if k > 0 {
        assert(ms[0].0 != name);
    }
}

proof fn lemma_second_member(ms: Seq<(Seq<char>, Json)>, name: Seq<char>)
    requires
        ms.len() >= 2,
        ms[0].0 != name,
        ms[1].0 == name,
    ensures
        member_index(ms, name) == Some(1int),
{
    reveal(member_index);
    let k = choose|i: int|
        0 <= i < ms.len() && ms[i].0 == name && forall|j: int| 0 <= j < i ==> ms[j].0 != name;
    assert(0 <= 1 < ms.len() && ms[1].0 == name);
    if k > 1 {
        assert(ms[1].0 != name);
    }
}

/// Reading back the JSON form of any value gives that value: the pairs of
/// every table come back in the same order, with equal keys and values.
pub proof fn lemma_round_trip(m: LuaModel)
    ensures
        json_to_lua(lua_to_json(m)) == Some(m),
    decreases m,
{
    match m {
        LuaModel::Table(ps) => {
            reveal_strlit("key");
            reveal_strlit("value");
            assert("key"@ != "value"@) by {
                assert("key"@.len() != "value"@.len());
            }
            let j = lua_to_json(m);
            let ms = j->Object_0;
            assert(ms.len() == 1);
            lemma_single_member(ms, "pairs"@);
            let items = ms[0].1->Array_0;
            assert(items.len() == ps.len());
            assert forall|i: int| #![trigger ps[i]] 0 <= i < ps.len() implies json_to_pair(items[i])
                == Some(ps[i]) by {
                let pm = items[i]->Object_0;
                assert(pm == seq![("key"@, lua_to_json(ps[i].0)), ("value"@, lua_to_json(ps[i].1))]);
                lemma_single_member(pm, "key"@);
                lemma_second_member(pm, "value"@);
                lemma_round_trip(ps[i].0);
                lemma_round_trip(ps[i].1);
            }
            let r = json_to_lua(j);
            assert(r is Some);
            assert(r.unwrap() == LuaModel::Table(ps)) by {
                match r.unwrap() {
                    LuaModel::Table(qs) => {
                        assert(qs =~= ps);
                    },
                    _ => {},
                }
            }
        },
        _ => {},
    }
}

impl LuaValue {
    /// The JSON form of the value.
    pub fn to_json(&self) -> (r: JsonValue)
        ensures
            r@ == lua_to_json(self@),
        decreases self@,
    {
        match self {
            LuaValue::Table(t) => {
                let mut items: Vec<JsonValue> = Vec::new();
                let ghost ps = self@->Table_0;
                assert(*self == LuaValue::Table(*t));
                assert(self@ is Table);
                assert(forall|k: int|
                    0 <= k < ps.len() ==> #[trigger] ps[k] == (t.pairs@[k].key@, t.pairs@[k].value@));
                assert(ps.len() == t.pairs@.len());
                let mut i: usize = 0;
                while i < t.pairs.len()
                    invariant
                        self@ is Table,
                        ps == self@->Table_0,
                        ps.len() == t.pairs@.len(),
                        forall|k: int|
                            0 <= k < ps.len() ==> #[trigger] ps[k] == (
                                t.pairs@[k].key@,
                                t.pairs@[k].value@,
                            ),
                        i <= t.pairs@.len(),
                        items@.len() == i,
                        forall|k: int|
                            0 <= k < i ==> (#[trigger] items@[k])@ == Json::Object(
                                seq![
                                    ("key"@, lua_to_json(ps[k].0)),
                                    ("value"@, lua_to_json(ps[k].1)),
                                ],
                            ),
                    decreases t.pairs@.len() - i,
                {
                    let pair = &t.pairs[i];
                    proof {
                        assert(decreases_to!(self@ => self@->Table_0));
                        assert(decreases_to!(ps => ps[i as int]));
                        assert(decreases_to!(ps[i as int] => ps[i as int].0));
                        assert(decreases_to!(ps[i as int] => ps[i as int].1));
                    }
                    assert(ps[i as int] == (pair.key@, pair.value@));
                    let mut members: Vec<JsonMember> = Vec::new();
                    members.push(JsonMember { name: String::from_str("key"), value: pair.key.to_json() });
                    members.push(
                        JsonMember { name: String::from_str("value"), value: pair.value.to_json() },
                    );
                    let item = JsonValue::Object(members);
                    assert(item@ == Json::Object(
                        seq![("key"@, lua_to_json(ps[i as int].0)), ("value"@, lua_to_json(ps[i as int].1))],
                    )) by {
                        assert(item@->Object_0 =~= seq![
                            ("key"@, lua_to_json(ps[i as int].0)),
                            ("value"@, lua_to_json(ps[i as int].1)),
                        ]);
                    }
                    items.push(item);
                    i = i + 1;
                }
                let arr = JsonValue::Array(items);
                let mut members: Vec<JsonMember> = Vec::new();
                members.push(JsonMember { name: String::from_str("pairs"), value: arr });
                let r = JsonValue::Object(members);
                assert(r@ == lua_to_json(self@)) by {
                    assert(arr@->Array_0 =~= lua_to_json(self@)->Object_0[0].1->Array_0);
                    assert(r@->Object_0 =~= lua_to_json(self@)->Object_0);
                }
                r
            },
            LuaValue::String(s) => JsonValue::String(s.clone()),
            LuaValue::Integer(n) => JsonValue::Integer(*n),
            LuaValue::Float(b) => JsonValue::Float(*b),
            LuaValue::Bool(b) => JsonValue::Bool(*b),
            LuaValue::Null => JsonValue::Null,
        }
    }
}

/// The pair that an element of a table's `pairs` array denotes.
#[verifier::rlimit(60)]
fn pair_from_json(item: &JsonValue) -> (r: Option<LuaKeyValuePair>)
    ensures
        match r {
            Some(p) => json_to_pair(item@) == Some((p.key@, p.value@)),
            None => json_to_pair(item@) is None,
        },
    decreases item@,
{
    match item {
        JsonValue::Object(members) => {
            let ghost ms = item@->Object_0;
            assert(members@.map_values(|m: JsonMember| (m.name@, m.value@)) =~= ms);
            let ki = find_member(members, "key");
            let vi = find_member(members, "value");
            match (ki, vi) {
                (Some(ki), Some(vi)) => {
                    proof {
                        assert(decreases_to!(item@ => item@->Object_0));
                        assert(decreases_to!(ms => ms[ki as int]));
                        assert(decreases_to!(ms[ki as int] => ms[ki as int].1));
                        assert(decreases_to!(ms => ms[vi as int]));
                        assert(decreases_to!(ms[vi as int] => ms[vi as int].1));
                    }
                    let k = LuaValue::from_json(&members[ki].value);
                    let v = LuaValue::from_json(&members[vi].value);
                    match (k, v) {
                        (Some(k), Some(v)) => Some(LuaKeyValuePair { key: k, value: v }),
                        _ => None,
                    }
                },
                _ => None,
            }
        },
        _ => None,
    }
}

impl LuaValue {
    /// The value that a JSON document denotes, trying table, string,
    /// integer, float, boolean and null in that order; `None` when none fits.
    #[verifier::rlimit(60)]
    pub fn from_json(j: &JsonValue) -> (r: Option<LuaValue>)
        ensures
            match r {
                Some(v) => json_to_lua(j@) == Some(v@),
                None => json_to_lua(j@) is None,
            },
        decreases j@,
    {
        match j {
            JsonValue::Object(members) => {
                let ghost ms = j@->Object_0;
                assert(members@.map_values(|m: JsonMember| (m.name@, m.value@)) =~= ms);
                let p = match find_member(members, "pairs") {
                    Some(p) => p,
                    None => return None,
                };
                match &members[p].value {
                    JsonValue::Array(items) => {
                        let ghost its = ms[p as int].1->Array_0;
                        let ghost decoded = pair_results(its);
                        let mut pairs: Vec<LuaKeyValuePair> = Vec::new();
                        let mut i: usize = 0;
                        while i < items.len()
                            invariant
                                j@ is Object,
                                ms == j@->Object_0,
                                0 <= p < ms.len(),
                                member_index(ms, "pairs"@) == Some(p as int),
                                ms[p as int].1 is Array,
                                its == ms[p as int].1->Array_0,
                                its.len() == items@.len(),
                                forall|k: int| 0 <= k < its.len() ==> #[trigger] its[k] == items@[k]@,
                                decoded.len() == its.len(),
                                forall|k: int|
                                    0 <= k < its.len() ==> #[trigger] decoded[k] == json_to_pair(
                                        its[k],
                                    ),
                                i <= items@.len(),
                                pairs@.len() == i,
                                forall|k: int|
                                    0 <= k < i ==> decoded[k] == Some(
                                        ((#[trigger] pairs@[k]).key@, pairs@[k].value@),
                                    ),
                            decreases items@.len() - i,
                        {
                            proof {
                                assert(decreases_to!(j@ => j@->Object_0));
                                assert(decreases_to!(ms => ms[p as int]));
                                assert(decreases_to!(ms[p as int] => ms[p as int].1));
                                assert(decreases_to!(ms[p as int].1 => ms[p as int].1->Array_0));
                                assert(decreases_to!(its => its[i as int]));
                            }
                            match pair_from_json(&items[i]) {
                                Some(pr) => {
                                    pairs.push(pr);
                                },
                                None => {
                                    assert(decoded[i as int] is None);
                                    assert(!(forall|k: int|
                                        0 <= k < decoded.len() ==> (#[trigger] decoded[k]) is Some));
                                    assert(j@ == Json::Object(ms));
                                    assert(member_index(ms, "pairs"@) == Some(p as int));
                                    assert(ms[p as int].1 == Json::Array(its));
                                    assert(pair_results(its) == decoded);
                                    assert(json_to_lua(Json::Object(ms)) is None);
                                    return None;
                                },
                            }
                            i = i + 1;
                        }
                        let r = LuaValue::Table(LuaPackedTable { pairs });
                        assert forall|k: int| 0 <= k < decoded.len() implies (#[trigger] decoded[k]) is Some by {
                            assert(decoded[k] == Some((pairs@[k].key@, pairs@[k].value@)));
                        }
                        assert(r@->Table_0 =~= Seq::new(decoded.len(), |i: int| decoded[i].unwrap()));
                        Some(r)
                    },
                    _ => None,
                }
            },
            JsonValue::String(s) => Some(LuaValue::String(s.clone())),
            JsonValue::Integer(n) => Some(LuaValue::Integer(*n)),
            JsonValue::Float(b) => Some(LuaValue::Float(*b)),
            JsonValue::Bool(b) => Some(LuaValue::Bool(*b)),
            JsonValue::Null => Some(LuaValue::Null),
            JsonValue::Array(_) => None,
        }
    }
}

} // verus!
