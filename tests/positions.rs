use turtle_harness::decimal::{i64_to_string, parse_i64, parse_u16};
use turtle_harness::position::{
    CoordinatePosition, MinecraftCardinalDirection, MinecraftPosition, TurnDirection,
};

#[test]
fn command_string_has_spaces_and_signs() {
    let p = CoordinatePosition { x: 1, y: -60, z: 300 };
    assert_eq!(p.as_command_string(), "1 -60 300");
    let m = MinecraftPosition { position: p, facing: Some(MinecraftCardinalDirection::East) };
    assert_eq!(m.as_command_string(), "1 -60 300");
}

#[test]
fn offsets_add_and_keep_facing() {
    let m = MinecraftPosition {
        position: CoordinatePosition { x: 1, y: 2, z: 3 },
        facing: Some(MinecraftCardinalDirection::Up),
    };
    let r = m.with_offset(CoordinatePosition { x: -1, y: 10, z: 100 });
    assert_eq!(r.position, CoordinatePosition { x: 0, y: 12, z: 103 });
    assert_eq!(r.facing, Some(MinecraftCardinalDirection::Up));
}

#[test]
fn moving_and_turning() {
    let mut m = MinecraftPosition { position: CoordinatePosition { x: 0, y: 0, z: 0 }, facing: None };
    m.move_direction(MinecraftCardinalDirection::North);
    m.move_direction(MinecraftCardinalDirection::West);
    m.move_direction(MinecraftCardinalDirection::Down);
    assert_eq!(m.position, CoordinatePosition { x: -1, y: -1, z: -1 });
    let mut d = MinecraftCardinalDirection::North;
    d.rotate(TurnDirection::Right);
    assert_eq!(d, MinecraftCardinalDirection::East);
    d.rotate(TurnDirection::Right);
    assert_eq!(d, MinecraftCardinalDirection::South);
    d.rotate(TurnDirection::Left);
    d.rotate(TurnDirection::Left);
    d.rotate(TurnDirection::Left);
    assert_eq!(d, MinecraftCardinalDirection::West);
    let mut up = MinecraftCardinalDirection::Up;
    up.rotate(TurnDirection::Left);
    assert_eq!(up, MinecraftCardinalDirection::Up);
    assert_eq!(MinecraftCardinalDirection::South.name(), "south");
}

#[test]
fn coordinate_keys_parse() {
    assert_eq!(
        CoordinatePosition::from_str("x:1|y:-2|z:30"),
        Ok(CoordinatePosition { x: 1, y: -2, z: 30 })
    );
    assert_eq!(
        CoordinatePosition::try_from("x:-9223372036854775808|y:0|z:007".to_string()),
        Ok(CoordinatePosition { x: i64::MIN, y: 0, z: 7 })
    );
    assert!(CoordinatePosition::from_str("x:1|y:2").is_err());
    assert!(CoordinatePosition::from_str("x:1|y:2|z:").is_err());
    assert!(CoordinatePosition::from_str("x:1|y:2|z:3|").is_err());
    assert!(CoordinatePosition::from_str("x:+1|y:2|z:3").is_err());
    assert!(CoordinatePosition::from_str("x:9223372036854775808|y:2|z:3").is_err());
    assert!(CoordinatePosition::from_str("").is_err());
}

#[test]
fn decimal_text() {
    assert_eq!(i64_to_string(0), "0");
    assert_eq!(i64_to_string(-1234), "-1234");
    assert_eq!(i64_to_string(i64::MIN), "-9223372036854775808");
    assert_eq!(parse_i64("-42"), Some(-42));
    assert_eq!(parse_i64("9223372036854775807"), Some(i64::MAX));
    assert_eq!(parse_i64("9223372036854775808"), None);
    assert_eq!(parse_i64("-"), None);
    assert_eq!(parse_i64("1a"), None);
    assert_eq!(parse_u16("+65535"), Some(65535));
    assert_eq!(parse_u16("65536"), None);
    assert_eq!(parse_u16("-1"), None);
}

#[test]
fn coordinate_key_errors_name_the_part() {
    assert_eq!(CoordinatePosition::from_str("x:1|y:2"), Err("no capture".to_string()));
    assert_eq!(CoordinatePosition::from_str("x:1|y:a|z:3"), Err("no capture".to_string()));
    assert_eq!(
        CoordinatePosition::from_str("x:99999999999999999999|y:0|z:0"),
        Err("invalid x integer".to_string())
    );
    assert_eq!(
        CoordinatePosition::from_str("x:0|y:-99999999999999999999|z:0"),
        Err("invalid y integer".to_string())
    );
    assert_eq!(
        CoordinatePosition::from_str("x:0|y:0|z:9223372036854775808"),
        Err("invalid z integer".to_string())
    );
    assert_eq!(
        CoordinatePosition::from_str("x:99999999999999999999|y:99999999999999999999|z:0"),
        Err("invalid x integer".to_string())
    );
}
