use turtle_harness::json::{JsonMember, JsonValue};
use turtle_harness::lua::{LuaKeyValuePair, LuaPackedTable, LuaValue};
use turtle_harness::packet::{
    DebuggingPacket, PacketError, PacketType, RawTurtlePacket, UnknownPacket,
};
use turtle_harness::panic_report::{LuaPanic, PanicPacket};

fn obj(members: Vec<(&str, JsonValue)>) -> JsonValue {
    JsonValue::Object(
        members.into_iter().map(|(n, v)| JsonMember { name: n.to_string(), value: v }).collect(),
    )
}

fn s(t: &str) -> JsonValue {
    JsonValue::String(t.to_string())
}

fn pair(k: LuaValue, v: LuaValue) -> LuaKeyValuePair {
    LuaKeyValuePair { key: k, value: v }
}

fn same(a: &LuaValue, b: &LuaValue) -> bool {
    match (a, b) {
        (LuaValue::Table(x), LuaValue::Table(y)) => {
            x.pairs.len() == y.pairs.len()
                && x.pairs.iter().zip(y.pairs.iter()).all(|(p, q)| same(&p.key, &q.key) && same(&p.value, &q.value))
        }
        (LuaValue::String(x), LuaValue::String(y)) => x == y,
        (LuaValue::Integer(x), LuaValue::Integer(y)) => x == y,
        (LuaValue::Float(x), LuaValue::Float(y)) => x == y,
        (LuaValue::Bool(x), LuaValue::Bool(y)) => x == y,
        (LuaValue::Null, LuaValue::Null) => true,
        _ => false,
    }
}

fn sample() -> LuaValue {
    let inner = LuaValue::Table(LuaPackedTable {
        pairs: vec![pair(LuaValue::Integer(1), LuaValue::String("one".to_string()))],
    });
    LuaValue::Table(LuaPackedTable {
        pairs: vec![
            pair(LuaValue::Integer(3), LuaValue::String("123".to_string())),
            pair(LuaValue::String("nested".to_string()), inner),
            pair(LuaValue::Bool(true), LuaValue::Float(1.5f64.to_bits())),
            pair(LuaValue::Float(2.0f64.to_bits()), LuaValue::Null),
            pair(LuaValue::Integer(1), LuaValue::Integer(-7)),
        ],
    })
}

#[test]
fn mixed_table_round_trips_in_order() {
    let v = sample();
    let back = LuaValue::from_json(&v.to_json()).unwrap();
    assert!(same(&v, &back));
    match back {
        LuaValue::Table(t) => {
            assert!(matches!(t.pairs[0].key, LuaValue::Integer(3)));
            assert!(matches!(t.pairs[4].key, LuaValue::Integer(1)));
        }
        _ => panic!("not a table"),
    }
}

#[test]
fn empty_table_round_trips() {
    let v = LuaValue::Table(LuaPackedTable { pairs: vec![] });
    let j = v.to_json();
    match &j {
        JsonValue::Object(m) => {
            assert_eq!(m.len(), 1);
            assert_eq!(m[0].name, "pairs");
            assert!(matches!(&m[0].value, JsonValue::Array(a) if a.is_empty()));
        }
        _ => panic!("not an object"),
    }
    assert!(same(&LuaValue::from_json(&j).unwrap(), &v));
}

#[test]
fn decode_keeps_the_fixed_order() {
    assert!(matches!(LuaValue::from_json(&s("123")), Some(LuaValue::String(t)) if t == "123"));
    assert!(matches!(LuaValue::from_json(&JsonValue::Integer(123)), Some(LuaValue::Integer(123))));
    assert!(matches!(LuaValue::from_json(&JsonValue::Float(7)), Some(LuaValue::Float(7))));
    assert!(matches!(LuaValue::from_json(&JsonValue::Bool(false)), Some(LuaValue::Bool(false))));
    assert!(matches!(LuaValue::from_json(&JsonValue::Null), Some(LuaValue::Null)));
    assert!(LuaValue::from_json(&JsonValue::Array(vec![])).is_none());
    assert!(LuaValue::from_json(&obj(vec![("other", JsonValue::Null)])).is_none());
    let bad_pair = obj(vec![("pairs", JsonValue::Array(vec![obj(vec![("key", s("k"))])]))]);
    assert!(LuaValue::from_json(&bad_pair).is_none());
    // members of a pair may come in any order, extra members are ignored
    let swapped = obj(vec![(
        "pairs",
        JsonValue::Array(vec![obj(vec![("value", JsonValue::Integer(2)), ("extra", JsonValue::Null), ("key", s("k"))])]),
    )]);
    match LuaValue::from_json(&swapped) {
        Some(LuaValue::Table(t)) => {
            assert!(matches!(&t.pairs[0].key, LuaValue::String(k) if k == "k"));
            assert!(matches!(t.pairs[0].value, LuaValue::Integer(2)));
        }
        _ => panic!("expected a table"),
    }
}

fn envelope(tag: &str, data: &str) -> JsonValue {
    obj(vec![
        ("id", JsonValue::Integer(5)),
        ("uuid", s("abc")),
        ("packet_type", s(tag)),
        ("inner_data", s(data)),
    ])
}

#[test]
fn unknown_tag_is_kept_as_raw_payload() {
    let raw = RawTurtlePacket::from_json(&envelope("mystery", "{not json")).unwrap();
    assert_eq!(*raw.packet_type(), PacketType::Unknown);
    let p = UnknownPacket::try_from(raw).unwrap();
    assert_eq!(p.from, 5);
    assert_eq!(p.uuid, "abc");
    assert_eq!(p.unknown_data, "{not json");
}

#[test]
fn tags_name_their_kinds() {
    for (tag, kind) in [
        ("panic", PacketType::Panic),
        ("walkback", PacketType::Walkback),
        ("debugging", PacketType::Debugging),
        ("unknown", PacketType::Unknown),
        ("PANIC", PacketType::Unknown),
    ] {
        assert_eq!(PacketType::from_tag(tag), kind);
        assert_eq!(*RawTurtlePacket::from_json(&envelope(tag, "")).unwrap().packet_type(), kind);
    }
}

#[test]
fn narrowing_succeeds_only_on_matching_tag() {
    for tag in ["panic", "walkback", "debugging", "unknown"] {
        let d = DebuggingPacket::try_from(RawTurtlePacket::from_json(&envelope(tag, "hello")).unwrap());
        let u = UnknownPacket::try_from(RawTurtlePacket::from_json(&envelope(tag, "hello")).unwrap());
        let p = PanicPacket::try_from(RawTurtlePacket::from_json(&envelope(tag, "")).unwrap(), &JsonValue::Null);
        assert_eq!(d.is_ok(), tag == "debugging");
        assert_eq!(u.is_ok(), tag == "unknown");
        if tag != "debugging" {
            assert!(matches!(d, Err(PacketError::WrongPacketType)));
        }
        if tag != "unknown" {
            assert!(matches!(u, Err(PacketError::WrongPacketType)));
        }
        if tag == "panic" {
            assert!(matches!(p, Err(PacketError::BadPayload)));
        } else {
            assert!(matches!(p, Err(PacketError::WrongPacketType)));
        }
    }
    let d = DebuggingPacket::try_from(RawTurtlePacket::from_json(&envelope("debugging", "hello")).unwrap()).unwrap();
    assert_eq!(d.debug_message, "hello");
}

#[test]
fn malformed_envelopes() {
    assert!(matches!(RawTurtlePacket::from_json(&JsonValue::Null), Err(PacketError::Malformed)));
    let no_uuid = obj(vec![("id", JsonValue::Integer(1)), ("packet_type", s("panic")), ("inner_data", s(""))]);
    assert!(matches!(RawTurtlePacket::from_json(&no_uuid), Err(PacketError::Malformed)));
    let big_id = obj(vec![
        ("id", JsonValue::Integer(70000)),
        ("uuid", s("u")),
        ("packet_type", s("panic")),
        ("inner_data", s("")),
    ]);
    assert!(matches!(RawTurtlePacket::from_json(&big_id), Err(PacketError::Malformed)));
}

fn table_json(pairs: Vec<(JsonValue, JsonValue)>) -> JsonValue {
    obj(vec![(
        "pairs",
        JsonValue::Array(pairs.into_iter().map(|(k, v)| obj(vec![("key", k), ("value", v)])).collect()),
    )])
}

#[test]
fn panic_report_is_read_from_its_payload() {
    let payload = obj(vec![
        ("stack_trace", s("at line 3")),
        ("locals", table_json(vec![(s("x"), JsonValue::Integer(1))])),
        ("up_values", table_json(vec![])),
        ("reason", s("boom")),
    ]);
    let raw = RawTurtlePacket::from_json(&envelope("panic", "...")).unwrap();
    let p = PanicPacket::try_from(raw, &payload).unwrap();
    assert_eq!(p.from, 5);
    assert_eq!(p.panic_data.stack_trace, "at line 3");
    assert_eq!(p.panic_data.locals.pairs.len(), 1);
    assert_eq!(p.panic_data.up_values.pairs.len(), 0);
    assert_eq!(p.panic_data.unknown_extra_data.len(), 1);
    assert_eq!(p.panic_data.unknown_extra_data[0].0, "reason");
    let missing = obj(vec![("stack_trace", s("t")), ("locals", table_json(vec![]))]);
    assert!(LuaPanic::from_json(&missing).is_none());
}
