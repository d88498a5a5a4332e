use turtle_harness::block::{BlockCatalog, HasMinecraftBlock, MinecraftBlock};
use turtle_harness::json::{JsonMember, JsonValue};
use turtle_harness::packet::{PacketError, RawTurtlePacket};
use turtle_harness::position::{CoordinatePosition, MinecraftCardinalDirection};
use turtle_harness::walkback::{
    coordinate_from_json, BlockState, LuaBlock, LuaMinecraftBlockState, PositionedMinecraftBlock,
    Walkback, WalkbackPacket,
};

fn obj(members: Vec<(&str, JsonValue)>) -> JsonValue {
    JsonValue::Object(
        members.into_iter().map(|(n, v)| JsonMember { name: n.to_string(), value: v }).collect(),
    )
}

fn s(t: &str) -> JsonValue {
    JsonValue::String(t.to_string())
}

fn xyz(x: i64, y: i64, z: i64) -> JsonValue {
    obj(vec![("y", JsonValue::Integer(y)), ("x", JsonValue::Integer(x)), ("z", JsonValue::Integer(z))])
}

fn catalog() -> BlockCatalog {
    BlockCatalog {
        vanilla: vec![
            MinecraftBlock { name: "dirt".to_string(), display_name: "Dirt".to_string(), id: 10 },
            MinecraftBlock { name: "wheat".to_string(), display_name: "Wheat".to_string(), id: 11 },
        ],
        modded: vec![],
    }
}

fn dump() -> JsonValue {
    obj(vec![
        ("cur_position", obj(vec![("position", xyz(1, 2, 3)), ("facing", s("w"))])),
        ("walkback_chain", JsonValue::Array(vec![xyz(0, 0, 0), s("x:1|y:0|z:0")])),
        ("chain_seen_positions", obj(vec![("x:0|y:0|z:0", JsonValue::Integer(1))])),
        ("all_seen_positions", JsonValue::Null),
        (
            "all_seen_blocks",
            obj(vec![(
                "x:1|y:2|z:1",
                obj(vec![
                    ("name", s("minecraft:wheat")),
                    ("pos", xyz(1, 2, 1)),
                    ("state", JsonValue::Array(vec![obj(vec![("age", JsonValue::Integer(7))])])),
                    ("tag", JsonValue::Null),
                ]),
            )]),
        ),
    ])
}

#[test]
fn coordinates_from_objects_and_keys() {
    assert_eq!(coordinate_from_json(&xyz(4, -5, 6)), Some(CoordinatePosition { x: 4, y: -5, z: 6 }));
    assert_eq!(coordinate_from_json(&s("x:4|y:-5|z:6")), Some(CoordinatePosition { x: 4, y: -5, z: 6 }));
    assert_eq!(coordinate_from_json(&s("4 -5 6")), None);
    assert_eq!(coordinate_from_json(&obj(vec![("x", JsonValue::Integer(1))])), None);
}

#[test]
fn walkback_dump_is_read() {
    let w = Walkback::from_json(&dump(), &catalog()).unwrap();
    assert_eq!(w.cur_position.position, CoordinatePosition { x: 1, y: 2, z: 3 });
    assert_eq!(w.cur_position.facing, Some(MinecraftCardinalDirection::West));
    let chain = w.walkback_chain.unwrap();
    assert_eq!(chain, vec![CoordinatePosition { x: 0, y: 0, z: 0 }, CoordinatePosition { x: 1, y: 0, z: 0 }]);
    assert_eq!(w.chain_seen_positions.unwrap(), vec![(CoordinatePosition { x: 0, y: 0, z: 0 }, 1)]);
    assert!(w.all_seen_positions.is_none());
    let blocks = w.all_seen_blocks.unwrap();
    assert_eq!(blocks.len(), 1);
    assert_eq!(blocks[0].0, CoordinatePosition { x: 1, y: 2, z: 1 });
    assert_eq!(blocks[0].1.get_full_name(), "minecraft:wheat");
    assert_eq!(blocks[0].1.position(), CoordinatePosition { x: 1, y: 2, z: 1 });
}

#[test]
fn unknown_block_fails_the_dump() {
    let payload = obj(vec![
        ("cur_position", obj(vec![("position", xyz(0, 0, 0))])),
        (
            "all_seen_blocks",
            obj(vec![("x:0|y:0|z:0", obj(vec![("name", s("bedrock")), ("pos", xyz(0, 0, 0))]))]),
        ),
    ]);
    assert!(Walkback::from_json(&payload, &catalog()).is_none());
    let raw = RawTurtlePacket::from_json(&obj(vec![
        ("id", JsonValue::Integer(2)),
        ("uuid", s("u")),
        ("packet_type", s("walkback")),
        ("inner_data", s("...")),
    ]))
    .unwrap();
    assert!(matches!(WalkbackPacket::try_from(raw, &payload, &catalog()), Err(PacketError::BadPayload)));
}

#[test]
fn walkback_packet_needs_its_tag() {
    let env = |tag: &str| {
        RawTurtlePacket::from_json(&obj(vec![
            ("id", JsonValue::Integer(2)),
            ("uuid", s("u")),
            ("packet_type", s(tag)),
            ("inner_data", s("...")),
        ]))
        .unwrap()
    };
    let ok = WalkbackPacket::try_from(env("walkback"), &dump(), &catalog()).unwrap();
    assert_eq!(ok.from, 2);
    assert!(matches!(
        WalkbackPacket::try_from(env("debugging"), &dump(), &catalog()),
        Err(PacketError::WrongPacketType)
    ));
}

#[test]
fn lua_block_states_convert() {
    let b = LuaBlock {
        name: "dirt".to_string(),
        pos: CoordinatePosition { x: 0, y: 1, z: 0 },
        state: Some(vec![LuaMinecraftBlockState::Lit(true), LuaMinecraftBlockState::Level(3)]),
    };
    let p = PositionedMinecraftBlock::try_from(b, &catalog()).unwrap();
    assert_eq!(p.get_display_name(), "Dirt");
    let lit = BlockState::from(LuaMinecraftBlockState::Lit(true));
    assert_eq!((lit.name.as_str(), lit.state_type.as_str(), lit.num_values), ("lit", "bool", Some(1)));
    let eye = BlockState::from(LuaMinecraftBlockState::Eye(false));
    assert_eq!(eye.num_values, Some(0));
    let honey = BlockState::from(LuaMinecraftBlockState::HoneyLevel(4));
    assert_eq!((honey.name.as_str(), honey.state_type.as_str()), ("honey_level", "int"));
    assert!(honey.values.is_empty());
    let missing = LuaBlock { name: "stone".to_string(), pos: CoordinatePosition { x: 0, y: 0, z: 0 }, state: None };
    assert_eq!(PositionedMinecraftBlock::try_from(missing, &catalog()).err(), Some("Unknown block".to_string()));
}
