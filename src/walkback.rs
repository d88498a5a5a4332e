//! The walk-back dump an agent sends: where it is, the chain of positions it
//! can walk back along, and what it has seen on the way.
use vstd::prelude::*;

use crate::block::{catalog_lookup, str_eq, BlockCatalog, BlockInfo, HasMinecraftBlock, MinecraftBlock};
use crate::json::{find_member, member_index, Json, JsonMember, JsonValue};
use crate::packet::{PacketError, PacketType, RawTurtlePacket};
use crate::position::{
    coord, key_coordinate, parse_key, CoordinatePosition, MinecraftCardinalDirection,
    MinecraftPosition,
};

verus! {

/// A block state as the agent reports it: one named property.
#[derive(Clone, Copy, Debug, PartialEq, Eq, Structural)]
pub enum LuaMinecraftBlockState {
    Age(u32),
    Eye(bool),
    HoneyLevel(u32),
    Level(u32),
    Lit(bool),
    Stage(u32),
}

/// A block state in the form of the game's data catalog.
#[derive(Clone, Debug)]
pub struct BlockState {
    pub name: String,
    pub state_type: String,
    pub num_values: Option<u32>,
    pub values: Vec<String>,
}

/// The catalog form of a reported state, as (name, type, value).
pub open spec fn definition_of(s: LuaMinecraftBlockState) -> (Seq<char>, Seq<char>, Option<u32>) {
    match s {
        LuaMinecraftBlockState::Age(n) => ("age"@, "int"@, Some(n)),
        LuaMinecraftBlockState::Eye(b) => ("eye"@, "bool"@, Some(if b { 1u32 } else { 0u32 })),
        LuaMinecraftBlockState::HoneyLevel(n) => ("honey_level"@, "int"@, Some(n)),
        LuaMinecraftBlockState::Level(n) => ("level"@, "int"@, Some(n)),
        LuaMinecraftBlockState::Lit(b) => ("lit"@, "bool"@, Some(if b { 1u32 } else { 0u32 })),
        LuaMinecraftBlockState::Stage(n) => ("stage"@, "int"@, Some(n)),
    }
}

impl BlockState {
    pub open spec fn spec(&self) -> (Seq<char>, Seq<char>, Option<u32>) {
        (self.name@, self.state_type@, self.num_values)
    }

    /// Convert a reported state into the catalog form, with no listed values.
    pub fn from(value: LuaMinecraftBlockState) -> (r: BlockState)
        ensures
            r.spec() == definition_of(value),
            r.values@.len() == 0,
    {
        let (name, state_type, num): (&str, &str, u32) = match value {
            LuaMinecraftBlockState::Age(n) => ("age", "int", n),
            LuaMinecraftBlockState::Eye(b) => ("eye", "bool", if b { 1 } else { 0 }),
            LuaMinecraftBlockState::HoneyLevel(n) => ("honey_level", "int", n),
            LuaMinecraftBlockState::Level(n) => ("level", "int", n),
            LuaMinecraftBlockState::Lit(b) => ("lit", "bool", if b { 1 } else { 0 }),
            LuaMinecraftBlockState::Stage(n) => ("stage", "int", n),
        };
        BlockState {
            name: String::from_str(name),
            state_type: String::from_str(state_type),
            num_values: Some(num),
            values: Vec::new(),
        }
    }
}

pub open spec fn u32_of(j: Json) -> Option<u32> {
    match j {
        Json::Int(n) => if 0 <= n <= u32::MAX {
            Some(n as u32)
        } else {
            None
        },
        _ => None,
    }
}

/// The state that a one-member object `{"<name>": value}` denotes.
pub open spec fn state_of(j: Json) -> Option<LuaMinecraftBlockState> {
    match j {
        Json::Object(ms) => if ms.len() == 1 {
            let n = ms[0].0;
            let v = ms[0].1;
            if n == "age"@ && u32_of(v) is Some {
                Some(LuaMinecraftBlockState::Age(u32_of(v).unwrap()))
            } else if n == "eye"@ && v is Bool {
                Some(LuaMinecraftBlockState::Eye(v->Bool_0))
            } else if n == "honey_level"@ && u32_of(v) is Some {
                Some(LuaMinecraftBlockState::HoneyLevel(u32_of(v).unwrap()))
            } else if n == "level"@ && u32_of(v) is Some {
                Some(LuaMinecraftBlockState::Level(u32_of(v).unwrap()))
            } else if n == "lit"@ && v is Bool {
                Some(LuaMinecraftBlockState::Lit(v->Bool_0))
            } else if n == "stage"@ && u32_of(v) is Some {
                Some(LuaMinecraftBlockState::Stage(u32_of(v).unwrap()))
            } else {
                None
            }
        } else {
            None
        },
        _ => None,
    }
}

fn u32_from_json(j: &JsonValue) -> (r: Option<u32>)
    ensures
        r == u32_of(j@),
{
    match j {
        JsonValue::Integer(n) => if *n >= 0 && *n <= 4294967295 {
            Some(*n as u32)
        } else {
            None
        },
        _ => None,
    }
}

fn state_from_json(j: &JsonValue) -> (r: Option<LuaMinecraftBlockState>)
    ensures
        r == state_of(j@),
{
    let members = match j {
        JsonValue::Object(m) => m,
        _ => return None,
    };
    if members.len() != 1 {
        return None;
    }
    let n = members[0].name.as_str();
    let v = &members[0].value;
    let num = u32_from_json(v);
    let flag: Option<bool> = match v {
        JsonValue::Bool(b) => Some(*b),
        _ => None,
    };
    if str_eq(n, "age") && num.is_some() {
        Some(LuaMinecraftBlockState::Age(num.unwrap()))
    } else if str_eq(n, "eye") && flag.is_some() {
        Some(LuaMinecraftBlockState::Eye(flag.unwrap()))
    } else if str_eq(n, "honey_level") && num.is_some() {
        Some(LuaMinecraftBlockState::HoneyLevel(num.unwrap()))
    } else if str_eq(n, "level") && num.is_some() {
        Some(LuaMinecraftBlockState::Level(num.unwrap()))
    } else if str_eq(n, "lit") && flag.is_some() {
        Some(LuaMinecraftBlockState::Lit(flag.unwrap()))
    } else if str_eq(n, "stage") && num.is_some() {
        Some(LuaMinecraftBlockState::Stage(num.unwrap()))
    } else {
        None
    }
}

/// The member called `name`, unless it is missing or `null`.
pub open spec fn present(ms: Seq<(Seq<char>, Json)>, name: Seq<char>) -> Option<Json> {
    let i = member_index(ms, name);
    if i is Some && !(ms[i.unwrap()].1 is Null) {
        Some(ms[i.unwrap()].1)
    } else {
        None
    }
}

fn present_member<'a>(members: &'a Vec<JsonMember>, name: &str) -> (r: Option<&'a JsonValue>)
    ensures
        match r {
            Some(v) => present(members@.map_values(|m: JsonMember| (m.name@, m.value@)), name@)
                == Some(v@),
            None => present(members@.map_values(|m: JsonMember| (m.name@, m.value@)), name@) is None,
        },
{
    let ghost ms = members@.map_values(|m: JsonMember| (m.name@, m.value@));
    match find_member(members, name) {
        Some(i) => {
            assert(ms[i as int].1 == members@[i as int].value@);
            match &members[i].value {
                JsonValue::Null => None,
                v => Some(v),
            }
        },
        None => None,
    }
}

/// The position that a coordinate document denotes: an object with integer
/// members `x`, `y` and `z`, or a key `x:<x>|y:<y>|z:<z>`.
pub open spec fn coordinate_of(j: Json) -> Option<CoordinatePosition> {
    match j {
        Json::Object(ms) => {
            let x = member_index(ms, "x"@);
            let y = member_index(ms, "y"@);
            let z = member_index(ms, "z"@);
            if x is Some && y is Some && z is Some && ms[x.unwrap()].1 is Int && ms[y.unwrap()].1 is Int
                && ms[z.unwrap()].1 is Int {
                let (a, b, c) = (
                    ms[x.unwrap()].1->Int_0,
                    ms[y.unwrap()].1->Int_0,
                    ms[z.unwrap()].1->Int_0,
                );
                if i64::MIN <= a <= i64::MAX && i64::MIN <= b <= i64::MAX && i64::MIN <= c
                    <= i64::MAX {
                    Some(coord(a, b, c))
                } else {
                    None
                }
            } else {
                None
            }
        },
        Json::Str(s) => key_coordinate(s),
        _ => None,
    }
}

fn int_member(members: &Vec<JsonMember>, name: &str) -> (r: Option<i64>)
    ensures
        ({
            let ms = members@.map_values(|m: JsonMember| (m.name@, m.value@));
            let i = member_index(ms, name@);
            match r {
                Some(n) => i is Some && ms[i.unwrap()].1 == Json::Int(n as int),
                None => !(i is Some && ms[i.unwrap()].1 is Int),
            }
        }),
{
    let ghost ms = members@.map_values(|m: JsonMember| (m.name@, m.value@));
    match find_member(members, name) {
        Some(i) => {
            assert(ms[i as int].1 == members@[i as int].value@);
            match &members[i].value {
                JsonValue::Integer(n) => Some(*n),
                _ => None,
            }
        },
        None => None,
    }
}

pub fn coordinate_from_json(j: &JsonValue) -> (r: Option<CoordinatePosition>)
    ensures
        r == coordinate_of(j@),
{
    match j {
        JsonValue::Object(members) => {
            let ghost ms = j@->Object_0;
            assert(members@.map_values(|m: JsonMember| (m.name@, m.value@)) =~= ms);
            match (int_member(members, "x"), int_member(members, "y"), int_member(members, "z")) {
                (Some(x), Some(y), Some(z)) => Some(CoordinatePosition { x, y, z }),
                _ => None,
            }
        },
        JsonValue::String(s) => parse_key(s.as_str()),
        _ => None,
    }
}

/// The facing that a document denotes: `n`, `e`, `s`, `w`, `u` or `d`.
pub open spec fn facing_of(j: Json) -> Option<MinecraftCardinalDirection> {
    match j {
        Json::Str(s) => if s == "n"@ {
            Some(MinecraftCardinalDirection::North)
        } else if s == "e"@ {
            Some(MinecraftCardinalDirection::East)
        } else if s == "s"@ {
            Some(MinecraftCardinalDirection::South)
        } else if s == "w"@ {
            Some(MinecraftCardinalDirection::West)
        } else if s == "u"@ {
            Some(MinecraftCardinalDirection::Up)
        } else if s == "d"@ {
            Some(MinecraftCardinalDirection::Down)
        } else {
            None
        },
        _ => None,
    }
}

fn facing_from_json(j: &JsonValue) -> (r: Option<MinecraftCardinalDirection>)
    ensures
        r == facing_of(j@),
{
    match j {
        JsonValue::String(s) => {
            let t = s.as_str();
            if str_eq(t, "n") {
                Some(MinecraftCardinalDirection::North)
            } else if str_eq(t, "e") {
                Some(MinecraftCardinalDirection::East)
            } else if str_eq(t, "s") {
                Some(MinecraftCardinalDirection::South)
            } else if str_eq(t, "w") {
                Some(MinecraftCardinalDirection::West)
            } else if str_eq(t, "u") {
                Some(MinecraftCardinalDirection::Up)
            } else if str_eq(t, "d") {
                Some(MinecraftCardinalDirection::Down)
            } else {
                None
            }
        },
        _ => None,
    }
}

/// The position that `{"position": ..., "facing": ...}` denotes; a missing
/// or `null` facing is none.
pub open spec fn position_of(j: Json) -> Option<MinecraftPosition> {
    match j {
        Json::Object(ms) => {
            let p = member_index(ms, "position"@);
            let f = present(ms, "facing"@);
            if p is Some && coordinate_of(ms[p.unwrap()].1) is Some && (f is None || facing_of(
                f.unwrap(),
            ) is Some) {
                Some(
                    MinecraftPosition {
                        position: coordinate_of(ms[p.unwrap()].1).unwrap(),
                        facing: if f is Some {
                            facing_of(f.unwrap())
                        } else {
                            None
                        },
                    },
                )
            } else {
                None
            }
        },
        _ => None,
    }
}

pub fn position_from_json(j: &JsonValue) -> (r: Option<MinecraftPosition>)
    ensures
        r == position_of(j@),
{
    let members = match j {
        JsonValue::Object(m) => m,
        _ => return None,
    };
    let ghost ms = j@->Object_0;
    assert(members@.map_values(|m: JsonMember| (m.name@, m.value@)) =~= ms);
    let position = match find_member(members, "position") {
        Some(i) => {
            assert(ms[i as int].1 == members@[i as int].value@);
            match coordinate_from_json(&members[i].value) {
                Some(p) => p,
                None => return None,
            }
        },
        None => return None,
    };
    let facing = match present_member(members, "facing") {
        Some(v) => match facing_from_json(v) {
            Some(d) => Some(d),
            None => return None,
        },
        None => None,
    };
    Some(MinecraftPosition { position, facing })
}

/// A block as the agent reports it.
#[derive(Debug)]
pub struct LuaBlock {
    pub name: String,
    pub pos: CoordinatePosition,
    pub state: Option<Vec<LuaMinecraftBlockState>>,
}

/// Every element decoded by `f`, or `None` when one fails.
pub open spec fn all_of<A>(items: Seq<Json>, f: spec_fn(Json) -> Option<A>) -> Option<Seq<A>> {
    if forall|i: int| 0 <= i < items.len() ==> (#[trigger] f(items[i])) is Some {
        Some(Seq::new(items.len(), |i: int| f(items[i]).unwrap()))
    } else {
        None
    }
}

pub open spec fn state_fn() -> spec_fn(Json) -> Option<LuaMinecraftBlockState> {
    |j: Json| state_of(j)
}

pub open spec fn coordinate_fn() -> spec_fn(Json) -> Option<CoordinatePosition> {
    |j: Json| coordinate_of(j)
}

/// The reported block that `{"name", "pos", "state"}` denotes; a missing or
/// `null` state list is none. Other members, such as tags, are ignored.
pub open spec fn lua_block_of(j: Json) -> Option<(Seq<char>, CoordinatePosition, Option<Seq<LuaMinecraftBlockState>>)> {
    match j {
        Json::Object(ms) => {
            let n = member_index(ms, "name"@);
            let p = member_index(ms, "pos"@);
            let s = present(ms, "state"@);
            let states = if s is Some {
                match s.unwrap() {
                    Json::Array(items) => all_of(items, state_fn()),
                    _ => None,
                }
            } else {
                None
            };
            if n is Some && ms[n.unwrap()].1 is Str && p is Some && coordinate_of(ms[p.unwrap()].1) is Some
                && (s is None || states is Some) {
                Some((ms[n.unwrap()].1->Str_0, coordinate_of(ms[p.unwrap()].1).unwrap(), states))
            } else {
                None
            }
        },
        _ => None,
    }
}

fn states_from_json(items: &Vec<JsonValue>) -> (r: Option<Vec<LuaMinecraftBlockState>>)
    ensures
        ({
            let its = items@.map_values(|v: JsonValue| v@);
            match r {
                Some(v) => all_of(its, state_fn()) == Some(v@),
                None => all_of(its, state_fn()) is None,
            }
        }),
{
    let ghost its = items@.map_values(|v: JsonValue| v@);
    let mut out: Vec<LuaMinecraftBlockState> = Vec::new();
    let mut i: usize = 0;
    while i < items.len()
        invariant
            its == items@.map_values(|v: JsonValue| v@),
            i <= items@.len(),
            out@.len() == i,
            forall|k: int| 0 <= k < i ==> (state_fn())(its[k]) == Some(#[trigger] out@[k]),
        decreases items@.len() - i,
    {
        match state_from_json(&items[i]) {
            Some(s) => out.push(s),
            None => {
                assert((state_fn())(its[i as int]) is None);
                return None;
            },
        }
        i = i + 1;
    }
    assert forall|k: int| 0 <= k < its.len() implies (#[trigger] (state_fn())(its[k])) is Some by {
        assert((state_fn())(its[k]) == Some(out@[k]));
    }
    assert(out@ =~= Seq::new(its.len(), |k: int| (state_fn())(its[k]).unwrap()));
    Some(out)
}

impl LuaBlock {
    pub open spec fn spec(&self) -> (Seq<char>, CoordinatePosition, Option<Seq<LuaMinecraftBlockState>>) {
        (
            self.name@,
            self.pos,
            match self.state {
                Some(v) => Some(v@),
                None => None,
            },
        )
    }

    /// Read a reported block.
    pub fn from_json(j: &JsonValue) -> (r: Option<LuaBlock>)
        ensures
            match r {
                Some(b) => lua_block_of(j@) == Some(b.spec()),
                None => lua_block_of(j@) is None,
            },
    {
        let members = match j {
            JsonValue::Object(m) => m,
            _ => return None,
        };
        let ghost ms = j@->Object_0;
        assert(members@.map_values(|m: JsonMember| (m.name@, m.value@)) =~= ms);
        let name = match find_member(members, "name") {
            Some(i) => {
                assert(ms[i as int].1 == members@[i as int].value@);
                match &members[i].value {
                    JsonValue::String(s) => s.clone(),
                    _ => return None,
                }
            },
            None => return None,
        };
        let pos = match find_member(members, "pos") {
            Some(i) => {
                assert(ms[i as int].1 == members@[i as int].value@);
                match coordinate_from_json(&members[i].value) {
                    Some(p) => p,
                    None => return None,
                }
            },
            None => return None,
        };
        let state = match present_member(members, "state") {
            Some(v) => match v {
                JsonValue::Array(items) => {
                    assert(items@.map_values(|v: JsonValue| v@) =~= v@->Array_0);
                    match states_from_json(items) {
                        Some(s) => Some(s),
                        None => return None,
                    }
                },
                _ => return None,
            },
            None => None,
        };
        Some(LuaBlock { name, pos, state })
    }
}

fn definitions(list: &Vec<LuaMinecraftBlockState>) -> (r: Vec<BlockState>)
    ensures
        r@.map_values(|s: BlockState| s.spec()) == list@.map_values(
            |x: LuaMinecraftBlockState| definition_of(x),
        ),
{
    let mut states: Vec<BlockState> = Vec::new();
    let mut i: usize = 0;
    while i < list.len()
        invariant
            i <= list@.len(),
            states@.len() == i,
            forall|k: int| 0 <= k < i ==> (#[trigger] states@[k]).spec() == definition_of(list@[k]),
        decreases list@.len() - i,
    {
        states.push(BlockState::from(list[i]));
        i = i + 1;
    }
    assert(states@.map_values(|s: BlockState| s.spec()) =~= list@.map_values(
        |x: LuaMinecraftBlockState| definition_of(x),
    ));
    states
}

/// A block at a known position, with its reported states.
#[derive(Debug)]
pub struct PositionedMinecraftBlock {
    /// The block kind.
    block: MinecraftBlock,
    /// Its states, in catalog form.
    states: Vec<BlockState>,
    /// The position that this block is at.
    position: CoordinatePosition,
}

/// The block that a reported block becomes once looked up in the catalog:
/// its kind, its states in catalog form, and its position.
pub open spec fn positioned_of(
    b: (Seq<char>, CoordinatePosition, Option<Seq<LuaMinecraftBlockState>>),
    catalog: BlockCatalog,
) -> Option<(BlockInfo, Seq<(Seq<char>, Seq<char>, Option<u32>)>, CoordinatePosition)> {
    let states = match b.2 {
        Some(s) => s.map_values(|x: LuaMinecraftBlockState| definition_of(x)),
        None => Seq::empty(),
    };
    match catalog_lookup(catalog, b.0) {
        Some(info) => Some((info, states, b.1)),
        None => None,
    }
}

impl PositionedMinecraftBlock {
    pub closed spec fn spec(&self) -> (BlockInfo, Seq<(Seq<char>, Seq<char>, Option<u32>)>, CoordinatePosition) {
        (self.block@, self.states@.map_values(|s: BlockState| s.spec()), self.position)
    }

    /// Look a reported block up in the catalog. Fails with `Unknown block`
    /// when the catalog has no block of that name.
    pub fn try_from(value: LuaBlock, catalog: &BlockCatalog) -> (r: Result<PositionedMinecraftBlock, String>)
        ensures
            match r {
                Ok(b) => positioned_of(value.spec(), *catalog) == Some(b.spec()),
                Err(e) => positioned_of(value.spec(), *catalog) is None && e@ == "Unknown block"@,
            },
    {
        let block = match MinecraftBlock::from_string(catalog, value.name.as_str()) {
            Some(b) => b,
            None => return Err(String::from_str("Unknown block")),
        };
        let ghost src: Seq<LuaMinecraftBlockState> = value.spec().2.unwrap_or(Seq::empty());
        let states = match value.state {
            Some(list) => definitions(&list),
            None => Vec::new(),
        };
        let r = PositionedMinecraftBlock { block, states, position: value.pos };
        assert(r.states@.map_values(|s: BlockState| s.spec()) =~= src.map_values(
            |x: LuaMinecraftBlockState| definition_of(x),
        ));
        Ok(r)
    }

    /// The position that this block is at.
    pub fn position(&self) -> (r: CoordinatePosition)
        ensures
            r == self.spec().2,
    {
        self.position
    }
}

impl HasMinecraftBlock for PositionedMinecraftBlock {
    open spec fn block_info(&self) -> BlockInfo {
        self.spec().0
    }

    fn get_name(&self) -> &String {
        self.block.get_name()
    }

    fn get_display_name(&self) -> &String {
        self.block.get_display_name()
    }

    fn is_modded(&self) -> bool {
        self.block.modded()
    }

    fn get_full_name(&self) -> String {
        self.block.full_name()
    }
}

/// Every member read as (key position, value), or `None` when a key is not a
/// coordinate key or a value fails `f`. Members keep their order.
pub open spec fn keyed_of<A>(ms: Seq<(Seq<char>, Json)>, f: spec_fn(Json) -> Option<A>) -> Option<
    Seq<(CoordinatePosition, A)>,
> {
    if forall|i: int|
        0 <= i < ms.len() ==> (#[trigger] key_coordinate(ms[i].0)) is Some && f(ms[i].1) is Some {
        Some(Seq::new(ms.len(), |i: int| (key_coordinate(ms[i].0).unwrap(), f(ms[i].1).unwrap())))
    } else {
        None
    }
}

pub open spec fn u16_fn() -> spec_fn(Json) -> Option<u16> {
    |j: Json|
        match j {
            Json::Int(n) => if 0 <= n <= u16::MAX {
                Some(n as u16)
            } else {
                None
            },
            _ => None,
        }
}

pub open spec fn bool_fn() -> spec_fn(Json) -> Option<bool> {
    |j: Json|
        match j {
            Json::Bool(b) => Some(b),
            _ => None,
        }
}

pub open spec fn block_fn(catalog: BlockCatalog) -> spec_fn(Json) -> Option<
    (BlockInfo, Seq<(Seq<char>, Seq<char>, Option<u32>)>, CoordinatePosition),
> {
    |j: Json|
        match lua_block_of(j) {
            Some(b) => positioned_of(b, catalog),
            None => None,
        }
}

/// An object's members read with `keyed_of`; `None` for anything else.
pub open spec fn keyed_doc<A>(j: Json, f: spec_fn(Json) -> Option<A>) -> Option<Seq<(CoordinatePosition, A)>> {
    match j {
        Json::Object(ms) => keyed_of(ms, f),
        _ => None,
    }
}

/// An array read with `all_of`; `None` for anything else.
pub open spec fn array_doc<A>(j: Json, f: spec_fn(Json) -> Option<A>) -> Option<Seq<A>> {
    match j {
        Json::Array(items) => all_of(items, f),
        _ => None,
    }
}

/// An optional member: absent or `null` gives `Some(None)`, a member that
/// reads gives `Some(Some(value))`, one that does not gives `None`.
pub open spec fn optional<A>(m: Option<Json>, read: spec_fn(Json) -> Option<A>) -> Option<Option<A>> {
    match m {
        None => Some(None),
        Some(j) => match read(j) {
            Some(v) => Some(Some(v)),
            None => None,
        },
    }
}

pub open spec fn chain_reader() -> spec_fn(Json) -> Option<Seq<CoordinatePosition>> {
    |d: Json| array_doc(d, coordinate_fn())
}

pub open spec fn seen_reader() -> spec_fn(Json) -> Option<Seq<(CoordinatePosition, u16)>> {
    |d: Json| keyed_doc(d, u16_fn())
}

pub open spec fn all_reader() -> spec_fn(Json) -> Option<Seq<(CoordinatePosition, bool)>> {
    |d: Json| keyed_doc(d, bool_fn())
}

pub open spec fn blocks_reader(catalog: BlockCatalog) -> spec_fn(Json) -> Option<
    Seq<(CoordinatePosition, (BlockInfo, Seq<(Seq<char>, Seq<char>, Option<u32>)>, CoordinatePosition))>,
> {
    |d: Json| keyed_doc(d, block_fn(catalog))
}

/// A walk-back dump as mathematical values.
pub struct WalkbackModel {
    pub cur_position: MinecraftPosition,
    pub walkback_chain: Option<Seq<CoordinatePosition>>,
    pub chain_seen_positions: Option<Seq<(CoordinatePosition, u16)>>,
    pub all_seen_positions: Option<Seq<(CoordinatePosition, bool)>>,
    pub all_seen_blocks: Option<
        Seq<(CoordinatePosition, (BlockInfo, Seq<(Seq<char>, Seq<char>, Option<u32>)>, CoordinatePosition))>,
    >,
}

/// The dump that a payload document denotes.
pub open spec fn walkback_of(j: Json, catalog: BlockCatalog) -> Option<WalkbackModel> {
    match j {
        Json::Object(ms) => {
            let c = member_index(ms, "cur_position"@);
            let chain = optional(present(ms, "walkback_chain"@), chain_reader());
            let seen = optional(present(ms, "chain_seen_positions"@), seen_reader());
            let all = optional(present(ms, "all_seen_positions"@), all_reader());
            let blocks = optional(present(ms, "all_seen_blocks"@), blocks_reader(catalog));
            if c is Some && position_of(ms[c.unwrap()].1) is Some && chain is Some && seen is Some
                && all is Some && blocks is Some {
                Some(
                    WalkbackModel {
                        cur_position: position_of(ms[c.unwrap()].1).unwrap(),
                        walkback_chain: chain.unwrap(),
                        chain_seen_positions: seen.unwrap(),
                        all_seen_positions: all.unwrap(),
                        all_seen_blocks: blocks.unwrap(),
                    },
                )
            } else {
                None
            }
        },
        _ => None,
    }
}

/// Where an agent is and what it remembers of its way there.
#[derive(Debug)]
pub struct Walkback {
    pub cur_position: MinecraftPosition,
    pub walkback_chain: Option<Vec<CoordinatePosition>>,
    pub chain_seen_positions: Option<Vec<(CoordinatePosition, u16)>>,
    pub all_seen_positions: Option<Vec<(CoordinatePosition, bool)>>,
    pub all_seen_blocks: Option<Vec<(CoordinatePosition, PositionedMinecraftBlock)>>,
}

impl View for Walkback {
    type V = WalkbackModel;

    open spec fn view(&self) -> WalkbackModel {
        WalkbackModel {
            cur_position: self.cur_position,
            walkback_chain: match self.walkback_chain {
                Some(v) => Some(v@),
                None => None,
            },
            chain_seen_positions: match self.chain_seen_positions {
                Some(v) => Some(v@),
                None => None,
            },
            all_seen_positions: match self.all_seen_positions {
                Some(v) => Some(v@),
                None => None,
            },
            all_seen_blocks: match self.all_seen_blocks {
                Some(v) => Some(
                    v@.map_values(|e: (CoordinatePosition, PositionedMinecraftBlock)| (e.0, e.1.spec())),
                ),
                None => None,
            },
        }
    }
}

fn chain_from_json(j: &JsonValue) -> (r: Option<Vec<CoordinatePosition>>)
    ensures
        match r {
            Some(v) => array_doc(j@, coordinate_fn()) == Some(v@),
            None => array_doc(j@, coordinate_fn()) is None,
        },
{
    let items = match j {
        JsonValue::Array(items) => items,
        _ => return None,
    };
    let ghost its = j@->Array_0;
    assert(items@.map_values(|v: JsonValue| v@) =~= its);
    let mut out: Vec<CoordinatePosition> = Vec::new();
    let mut i: usize = 0;
    while i < items.len()
        invariant
            its == items@.map_values(|v: JsonValue| v@),
            j@ == Json::Array(its),
            i <= items@.len(),
            out@.len() == i,
            forall|k: int| 0 <= k < i ==> (coordinate_fn())(its[k]) == Some(#[trigger] out@[k]),
        decreases items@.len() - i,
    {
        match coordinate_from_json(&items[i]) {
            Some(p) => out.push(p),
            None => {
                assert((coordinate_fn())(its[i as int]) is None);
                return None;
            },
        }
        i = i + 1;
    }
    assert forall|k: int| 0 <= k < its.len() implies (#[trigger] (coordinate_fn())(its[k])) is Some by {
        assert((coordinate_fn())(its[k]) == Some(out@[k]));
    }
    assert(out@ =~= Seq::new(its.len(), |k: int| (coordinate_fn())(its[k]).unwrap()));
    Some(out)
}

fn u16_map_from_json(j: &JsonValue) -> (r: Option<Vec<(CoordinatePosition, u16)>>)
    ensures
        match r {
            Some(v) => keyed_doc(j@, u16_fn()) == Some(v@),
            None => keyed_doc(j@, u16_fn()) is None,
        },
{
    let members = match j {
        JsonValue::Object(m) => m,
        _ => return None,
    };
    let ghost ms = j@->Object_0;
    assert(members@.map_values(|m: JsonMember| (m.name@, m.value@)) =~= ms);
    let mut out: Vec<(CoordinatePosition, u16)> = Vec::new();
    let mut i: usize = 0;
    while i < members.len()
        invariant
            ms == members@.map_values(|m: JsonMember| (m.name@, m.value@)),
            j@ == Json::Object(ms),
            i <= members@.len(),
            out@.len() == i,
            forall|k: int|
                0 <= k < i ==> key_coordinate(ms[k].0) == Some((#[trigger] out@[k]).0) && (u16_fn())(
                    ms[k].1,
                ) == Some(out@[k].1),
        decreases members@.len() - i,
    {
        assert(ms[i as int] == (members@[i as int].name@, members@[i as int].value@));
        let key = parse_key(members[i].name.as_str());
        let value: Option<u16> = match &members[i].value {
            JsonValue::Integer(n) => if *n >= 0 && *n <= 65535 {
                Some(*n as u16)
            } else {
                None
            },
            _ => None,
        };
        match (key, value) {
            (Some(k), Some(v)) => out.push((k, v)),
            _ => {
                assert(!(key_coordinate(ms[i as int].0) is Some && (u16_fn())(ms[i as int].1) is Some));
                return None;
            },
        }
        i = i + 1;
    }
    assert forall|k: int| 0 <= k < ms.len() implies (#[trigger] key_coordinate(ms[k].0)) is Some
        && (u16_fn())(ms[k].1) is Some by {
        assert(key_coordinate(ms[k].0) == Some(out@[k].0));
    }
    assert(out@ =~= Seq::new(
        ms.len(),
        |k: int| (key_coordinate(ms[k].0).unwrap(), (u16_fn())(ms[k].1).unwrap()),
    ));
    Some(out)
}

fn bool_map_from_json(j: &JsonValue) -> (r: Option<Vec<(CoordinatePosition, bool)>>)
    ensures
        match r {
            Some(v) => keyed_doc(j@, bool_fn()) == Some(v@),
            None => keyed_doc(j@, bool_fn()) is None,
        },
{
    let members = match j {
        JsonValue::Object(m) => m,
        _ => return None,
    };
    let ghost ms = j@->Object_0;
    assert(members@.map_values(|m: JsonMember| (m.name@, m.value@)) =~= ms);
    let mut out: Vec<(CoordinatePosition, bool)> = Vec::new();
    let mut i: usize = 0;
    while i < members.len()
        invariant
            ms == members@.map_values(|m: JsonMember| (m.name@, m.value@)),
            j@ == Json::Object(ms),
            i <= members@.len(),
            out@.len() == i,
            forall|k: int|
                0 <= k < i ==> key_coordinate(ms[k].0) == Some((#[trigger] out@[k]).0) && (bool_fn())(
                    ms[k].1,
                ) == Some(out@[k].1),
        decreases members@.len() - i,
    {
        assert(ms[i as int] == (members@[i as int].name@, members@[i as int].value@));
        let key = parse_key(members[i].name.as_str());
        let value: Option<bool> = match &members[i].value {
            JsonValue::Bool(b) => Some(*b),
            _ => None,
        };
        match (key, value) {
            (Some(k), Some(v)) => out.push((k, v)),
            _ => {
                assert(!(key_coordinate(ms[i as int].0) is Some && (bool_fn())(ms[i as int].1) is Some));
                return None;
            },
        }
        i = i + 1;
    }
    assert forall|k: int| 0 <= k < ms.len() implies (#[trigger] key_coordinate(ms[k].0)) is Some
        && (bool_fn())(ms[k].1) is Some by {
        assert(key_coordinate(ms[k].0) == Some(out@[k].0));
    }
    assert(out@ =~= Seq::new(
        ms.len(),
        |k: int| (key_coordinate(ms[k].0).unwrap(), (bool_fn())(ms[k].1).unwrap()),
    ));
    Some(out)
}

fn block_map_from_json(j: &JsonValue, catalog: &BlockCatalog) -> (r: Option<
    Vec<(CoordinatePosition, PositionedMinecraftBlock)>,
>)
    ensures
        match r {
            Some(v) => keyed_doc(j@, block_fn(*catalog)) == Some(
                v@.map_values(|e: (CoordinatePosition, PositionedMinecraftBlock)| (e.0, e.1.spec())),
            ),
            None => keyed_doc(j@, block_fn(*catalog)) is None,
        },
{
    let members = match j {
        JsonValue::Object(m) => m,
        _ => return None,
    };
    let ghost ms = j@->Object_0;
    assert(members@.map_values(|m: JsonMember| (m.name@, m.value@)) =~= ms);
    let mut out: Vec<(CoordinatePosition, PositionedMinecraftBlock)> = Vec::new();
    let mut i: usize = 0;
    while i < members.len()
        invariant
            ms == members@.map_values(|m: JsonMember| (m.name@, m.value@)),
            j@ == Json::Object(ms),
            i <= members@.len(),
            out@.len() == i,
            forall|k: int|
                0 <= k < i ==> key_coordinate(ms[k].0) == Some((#[trigger] out@[k]).0) && (block_fn(
                    *catalog,
                ))(ms[k].1) == Some(out@[k].1.spec()),
        decreases members@.len() - i,
    {
        assert(ms[i as int] == (members@[i as int].name@, members@[i as int].value@));
        let key = parse_key(members[i].name.as_str());
        let value = match LuaBlock::from_json(&members[i].value) {
            Some(b) => match PositionedMinecraftBlock::try_from(b, catalog) {
                Ok(p) => Some(p),
                Err(_) => None,
            },
            None => None,
        };
        match (key, value) {
            (Some(k), Some(v)) => out.push((k, v)),
            _ => {
                assert(!(key_coordinate(ms[i as int].0) is Some && (block_fn(*catalog))(
                    ms[i as int].1,
                ) is Some));
                return None;
            },
        }
        i = i + 1;
    }
    assert forall|k: int| 0 <= k < ms.len() implies (#[trigger] key_coordinate(ms[k].0)) is Some
        && (block_fn(*catalog))(ms[k].1) is Some by {
        assert(key_coordinate(ms[k].0) == Some(out@[k].0));
    }
    assert(out@.map_values(|e: (CoordinatePosition, PositionedMinecraftBlock)| (e.0, e.1.spec()))
        =~= Seq::new(
        ms.len(),
        |k: int| (key_coordinate(ms[k].0).unwrap(), (block_fn(*catalog))(ms[k].1).unwrap()),
    ));
    Some(out)
}

impl Walkback {
    /// Read a walk-back dump from its payload document, looking its blocks up
    /// in `catalog`.
    pub fn from_json(j: &JsonValue, catalog: &BlockCatalog) -> (r: Option<Walkback>)
        ensures
            match r {
                Some(w) => walkback_of(j@, *catalog) == Some(w@),
                None => walkback_of(j@, *catalog) is None,
            },
    {
        let members = match j {
            JsonValue::Object(m) => m,
            _ => return None,
        };
        let ghost ms = j@->Object_0;
        assert(members@.map_values(|m: JsonMember| (m.name@, m.value@)) =~= ms);
        let cur_position = match find_member(members, "cur_position") {
            Some(i) => {
                assert(ms[i as int].1 == members@[i as int].value@);
                match position_from_json(&members[i].value) {
                    Some(p) => p,
                    None => return None,
                }
            },
            None => return None,
        };
        let walkback_chain = match present_member(members, "walkback_chain") {
            Some(v) => match chain_from_json(v) {
                Some(c) => Some(c),
                None => return None,
            },
            None => None,
        };
        let chain_seen_positions = match present_member(members, "chain_seen_positions") {
            Some(v) => match u16_map_from_json(v) {
                Some(c) => Some(c),
                None => return None,
            },
            None => None,
        };
        let all_seen_positions = match present_member(members, "all_seen_positions") {
            Some(v) => match bool_map_from_json(v) {
                Some(c) => Some(c),
                None => return None,
            },
            None => None,
        };
        let all_seen_blocks = match present_member(members, "all_seen_blocks") {
            Some(v) => match block_map_from_json(v, catalog) {
                Some(c) => Some(c),
                None => return None,
            },
            None => None,
        };
        Some(
            Walkback {
                cur_position,
                walkback_chain,
                chain_seen_positions,
                all_seen_positions,
                all_seen_blocks,
            },
        )
    }
}

/// A walk-back dump that an agent sends.
#[derive(Debug)]
pub struct WalkbackPacket {
    /// The agent that sent this packet.
    pub from: u16,
    /// The id of the message.
    pub uuid: String,
    /// The dump.
    pub walkback: Walkback,
}

impl WalkbackPacket {
    /// Narrow an envelope tagged `Walkback`, reading its dump from `payload`,
    /// the document that the envelope's payload text holds. Fails with
    /// `WrongPacketType` exactly when the tag is another one.
    pub fn try_from(value: RawTurtlePacket, payload: &JsonValue, catalog: &BlockCatalog) -> (r: Result<
        WalkbackPacket,
        PacketError,
    >)
        ensures
            value.kind() != PacketType::Walkback <==> r == Err::<WalkbackPacket, PacketError>(
                PacketError::WrongPacketType,
            ),
            value.kind() == PacketType::Walkback ==> match r {
                Ok(p) => p.from == value.sender() && p.uuid@ == value.message_id() && walkback_of(
                    payload@,
                    *catalog,
                ) == Some(p.walkback@),
                Err(e) => e == PacketError::BadPayload && walkback_of(payload@, *catalog) is None,
            },
    {
        if *value.packet_type() != PacketType::Walkback {
            return Err(PacketError::WrongPacketType);
        }
        match Walkback::from_json(payload, catalog) {
            Some(walkback) => Ok(
                WalkbackPacket { from: value.from_id(), uuid: value.into_uuid(), walkback },
            ),
            None => Err(PacketError::BadPayload),
        }
    }
}

} // verus!
