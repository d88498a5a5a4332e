//! World positions, facing directions and their text forms.
use vstd::prelude::*;

use crate::decimal::{
    i64_to_string, int_decimal, parse_i64, push_i64, signed_text, signed_value,
};

verus! {

/// A position in XYZ space with no facing component.
#[derive(Clone, Copy, Debug, PartialEq, Eq, Structural, Hash)]
pub struct CoordinatePosition {
    /// East, West
    pub x: i64,
    /// Up, Down
    pub y: i64,
    /// North, South
    pub z: i64,
}

/// The various directions that blocks can face.
#[derive(Clone, Copy, Debug, PartialEq, Eq, Structural)]
pub enum MinecraftCardinalDirection {
    /// -Z
    North,
    /// +X
    East,
    /// +Z
    South,
    /// -X
    West,
    /// +Y
    Up,
    /// -Y
    Down,
}

#[derive(Clone, Copy, Debug, PartialEq, Eq, Structural)]
pub enum TurnDirection {
    Left,
    Right,
}

/// The world position of something, with an optional facing direction.
#[derive(Clone, Copy, Debug, PartialEq, Eq, Structural)]
pub struct MinecraftPosition {
    pub position: CoordinatePosition,
    pub facing: Option<MinecraftCardinalDirection>,
}

pub open spec fn fits_i64(n: int) -> bool {
    i64::MIN <= n <= i64::MAX
}

/// Whether the coordinate-wise sum of two positions fits in the coordinate type.
pub open spec fn offset_fits(a: CoordinatePosition, b: CoordinatePosition) -> bool {
    fits_i64(a.x + b.x) && fits_i64(a.y + b.y) && fits_i64(a.z + b.z)
}

/// The position with the three components given.
pub open spec fn coord(x: int, y: int, z: int) -> CoordinatePosition {
    CoordinatePosition { x: x as i64, y: y as i64, z: z as i64 }
}

/// The position as written in console commands: `x y z`.
pub open spec fn command_text(p: CoordinatePosition) -> Seq<char> {
    int_decimal(p.x as int) + seq![' '] + int_decimal(p.y as int) + seq![' '] + int_decimal(
        p.z as int,
    )
}

/// The unit step of a direction.
pub open spec fn step_of(d: MinecraftCardinalDirection) -> (int, int, int) {
    match d {
        MinecraftCardinalDirection::North => (0, 0, -1),
        MinecraftCardinalDirection::East => (1, 0, 0),
        MinecraftCardinalDirection::South => (0, 0, 1),
        MinecraftCardinalDirection::West => (-1, 0, 0),
        MinecraftCardinalDirection::Up => (0, 1, 0),
        MinecraftCardinalDirection::Down => (0, -1, 0),
    }
}

/// A quarter turn of a horizontal direction; up and down stay as they are.
pub open spec fn turned(d: MinecraftCardinalDirection, t: TurnDirection) -> MinecraftCardinalDirection {
    match (t, d) {
        (TurnDirection::Right, MinecraftCardinalDirection::North) => MinecraftCardinalDirection::East,
        (TurnDirection::Right, MinecraftCardinalDirection::East) => MinecraftCardinalDirection::South,
        (TurnDirection::Right, MinecraftCardinalDirection::South) => MinecraftCardinalDirection::West,
        (TurnDirection::Right, MinecraftCardinalDirection::West) => MinecraftCardinalDirection::North,
        (TurnDirection::Left, MinecraftCardinalDirection::North) => MinecraftCardinalDirection::West,
        (TurnDirection::Left, MinecraftCardinalDirection::West) => MinecraftCardinalDirection::South,
        (TurnDirection::Left, MinecraftCardinalDirection::South) => MinecraftCardinalDirection::East,
        (TurnDirection::Left, MinecraftCardinalDirection::East) => MinecraftCardinalDirection::North,
        _ => d,
    }
}

/// The lowercase name of a direction, as used in block states.
pub open spec fn facing_text(d: MinecraftCardinalDirection) -> Seq<char> {
    match d {
        MinecraftCardinalDirection::North => seq!['n', 'o', 'r', 't', 'h'],
        MinecraftCardinalDirection::East => seq!['e', 'a', 's', 't'],
        MinecraftCardinalDirection::South => seq!['s', 'o', 'u', 't', 'h'],
        MinecraftCardinalDirection::West => seq!['w', 'e', 's', 't'],
        MinecraftCardinalDirection::Up => seq!['u', 'p'],
        MinecraftCardinalDirection::Down => seq!['d', 'o', 'w', 'n'],
    }
}

/// `s` is `x:<a>|y:<b>|z:<c>` with each part a signed decimal integer.
pub open spec fn coordinate_parts(s: Seq<char>, a: Seq<char>, b: Seq<char>, c: Seq<char>) -> bool {
    &&& s == seq!['x', ':'] + a + seq!['|', 'y', ':'] + b + seq!['|', 'z', ':'] + c
    &&& signed_text(a)
    &&& signed_text(b)
    &&& signed_text(c)
}

/// `s` is a coordinate key that denotes `p`.
pub open spec fn denotes_coordinate(s: Seq<char>, p: CoordinatePosition) -> bool {
    exists|a: Seq<char>, b: Seq<char>, c: Seq<char>|
        #![trigger coordinate_parts(s, a, b, c)]
        coordinate_parts(s, a, b, c) && signed_value(a) == p.x as int && signed_value(b)
            == p.y as int && signed_value(c) == p.z as int
}

impl CoordinatePosition {
    /// Offset the position with an incoming coordinate position.
    pub fn with_offset(&self, offset: CoordinatePosition) -> (r: Self)
        requires
            offset_fits(*self, offset),
        ensures
            r.x == self.x + offset.x,
            r.y == self.y + offset.y,
            r.z == self.z + offset.z,
    {
        CoordinatePosition { x: self.x + offset.x, y: self.y + offset.y, z: self.z + offset.z }
    }

    /// Get the position as a string, used in commands (no commas).
    pub fn as_command_string(&self) -> (r: String)
        ensures
            r@ == command_text(*self),
    {
        let mut out = i64_to_string(self.x);
        proof { reveal_strlit(" "); }
        out.append(" ");
        push_i64(&mut out, self.y);
        out.append(" ");
        push_i64(&mut out, self.z);
        assert(out@ =~= command_text(*self));
        out
    }

    /// Parse a coordinate key of the form `x:<int>|y:<int>|z:<int>`.
    /// Fails with `no capture` when the text has another form, and with
    /// `invalid x integer` (or `y`, `z`, checked in that order) when a part
    /// is out of range.
    pub fn from_str(s: &str) -> (r: Result<CoordinatePosition, String>)
        ensures
            r.is_ok() <==> exists|p: CoordinatePosition| denotes_coordinate(s@, p),
            r.is_ok() ==> denotes_coordinate(s@, r.unwrap()),
            match coordinate_split(s@) {
                None => r is Err && r->Err_0@ == "no capture"@,
                Some((a, b, c)) => if !fits_i64(signed_value(a)) {
                    r is Err && r->Err_0@ == "invalid x integer"@
                } else if !fits_i64(signed_value(b)) {
                    r is Err && r->Err_0@ == "invalid y integer"@
                } else if !fits_i64(signed_value(c)) {
                    r is Err && r->Err_0@ == "invalid z integer"@
                } else {
                    r == Ok::<CoordinatePosition, String>(
                        coord(signed_value(a), signed_value(b), signed_value(c)),
                    )
                },
            },
    {
        match split_coordinate(s) {
            None => {
                proof {
                    assert forall|p: CoordinatePosition| !denotes_coordinate(s@, p) by {
                        if denotes_coordinate(s@, p) {
                            let (a, b, c) = choose|a: Seq<char>, b: Seq<char>, c: Seq<char>|
                                #![trigger coordinate_parts(s@, a, b, c)]
                                coordinate_parts(s@, a, b, c) && signed_value(a) == p.x as int
                                    && signed_value(b) == p.y as int && signed_value(c)
                                    == p.z as int;
                            assert(coordinate_parts(s@, a, b, c));
                        }
                    }
                }
                Err(String::from_str("no capture"))
            },
            Some((a, b, c)) => {
                let ghost ga = a@;
                let ghost gb = b@;
                let ghost gc = c@;
                proof {
                    assert forall|a2: Seq<char>, b2: Seq<char>, c2: Seq<char>|
                        #[trigger] coordinate_parts(s@, a2, b2, c2) implies a2 == ga && b2 == gb && c2
                        == gc by {
                        lemma_coordinate_parts_unique(s@, a2, b2, c2, ga, gb, gc);
                    }
                }
                if !(signed_shape(a) && signed_shape(b) && signed_shape(c)) {
                    assert(!coordinate_parts(s@, ga, gb, gc));
                    assert(coordinate_split(s@) is None);
                    proof {
                        assert forall|p: CoordinatePosition| !denotes_coordinate(s@, p) by {
                            if denotes_coordinate(s@, p) {
                                let (a2, b2, c2) = choose|
                                    a2: Seq<char>,
                                    b2: Seq<char>,
                                    c2: Seq<char>,
                                |
                                    #![trigger coordinate_parts(s@, a2, b2, c2)]
                                    coordinate_parts(s@, a2, b2, c2) && signed_value(a2)
                                        == p.x as int && signed_value(b2) == p.y as int
                                        && signed_value(c2) == p.z as int;
                                assert(coordinate_parts(s@, a2, b2, c2));
                            }
                        }
                    }
                    return Err(String::from_str("no capture"));
                }
                assert(coordinate_parts(s@, ga, gb, gc));
                assert(coordinate_split(s@) == Some((ga, gb, gc)));
                let x = match parse_i64(a) {
                    Some(x) => x,
                    None => {
                        proof { lemma_no_denotation(s@, ga, gb, gc); }
                        return Err(String::from_str("invalid x integer"));
                    },
                };
                let y = match parse_i64(b) {
                    Some(y) => y,
                    None => {
                        proof { lemma_no_denotation(s@, ga, gb, gc); }
                        return Err(String::from_str("invalid y integer"));
                    },
                };
                let z = match parse_i64(c) {
                    Some(z) => z,
                    None => {
                        proof { lemma_no_denotation(s@, ga, gb, gc); }
                        return Err(String::from_str("invalid z integer"));
                    },
                };
                let p = CoordinatePosition { x, y, z };
                assert(denotes_coordinate(s@, p));
                Ok(p)
            },
        }
    }

    /// Parse an owned coordinate key; see `from_str`.
    pub fn try_from(s: String) -> (r: Result<CoordinatePosition, String>)
        ensures
            r.is_ok() <==> exists|p: CoordinatePosition| denotes_coordinate(s@, p),
            r.is_ok() ==> denotes_coordinate(s@, r.unwrap()),
    {
        CoordinatePosition::from_str(s.as_str())
    }
}

/// The three parts of a coordinate key, when the text has that form.
pub open spec fn coordinate_split(s: Seq<char>) -> Option<(Seq<char>, Seq<char>, Seq<char>)> {
    if exists|a: Seq<char>, b: Seq<char>, c: Seq<char>| coordinate_parts(s, a, b, c) {
        Some(choose|a: Seq<char>, b: Seq<char>, c: Seq<char>| coordinate_parts(s, a, b, c))
    } else {
        None
    }
}

/// A key whose unique parts do not all fit denotes no position.
proof fn lemma_no_denotation(s: Seq<char>, a: Seq<char>, b: Seq<char>, c: Seq<char>)
    requires
        coordinate_parts(s, a, b, c),
        forall|a2: Seq<char>, b2: Seq<char>, c2: Seq<char>|
            #[trigger] coordinate_parts(s, a2, b2, c2) ==> a2 == a && b2 == b && c2 == c,
        !(fits_i64(signed_value(a)) && fits_i64(signed_value(b)) && fits_i64(signed_value(c))),
    ensures
        forall|p: CoordinatePosition| !denotes_coordinate(s, p),
{
    assert forall|p: CoordinatePosition| !denotes_coordinate(s, p) by {
        if denotes_coordinate(s, p) {
            let (a2, b2, c2) = choose|a2: Seq<char>, b2: Seq<char>, c2: Seq<char>|
                #![trigger coordinate_parts(s, a2, b2, c2)]
                coordinate_parts(s, a2, b2, c2) && signed_value(a2) == p.x as int && signed_value(b2)
                    == p.y as int && signed_value(c2) == p.z as int;
            assert(coordinate_parts(s, a2, b2, c2));
        }
    }
}

/// Whether `s` is an optional `-` followed by one or more digits.
fn signed_shape(s: &str) -> (r: bool)
    ensures
        r == signed_text(s@),
{
    let len = s.unicode_len();
    if len == 0 {
        return false;
    }
    let start: usize = if s.get_char(0) == '-' { 1 } else { 0 };
    if len <= start {
        return false;
    }
    let mut i = start;
    while i < len
        invariant
            len == s@.len(),
            start <= i <= len,
            start == 1 <==> s@[0] == '-',
            start <= 1,
            forall|k: int| start <= k < i ==> crate::decimal::is_digit(#[trigger] s@[k]),
        decreases len - i,
    {
        let ch = s.get_char(i);
        if !('0' <= ch && ch <= '9') {
            if start == 1 {
                assert(s@.drop_first()[i - 1] == s@[i as int]);
                assert(!crate::decimal::is_digit(s@.drop_first()[i - 1]));
            } else {
                assert(!crate::decimal::is_digit(s@[i as int]));
            }
            return false;
        }
        i = i + 1;
    }
    if start == 1 {
        assert forall|k: int| 0 <= k < s@.drop_first().len() implies crate::decimal::is_digit(
            #[trigger] s@.drop_first()[k],
        ) by {
            assert(s@.drop_first()[k] == s@[k + 1]);
        }
    }
    true
}

/// The position that a coordinate key denotes, if any.
pub open spec fn key_coordinate(s: Seq<char>) -> Option<CoordinatePosition> {
    if exists|p: CoordinatePosition| denotes_coordinate(s, p) {
        Some(choose|p: CoordinatePosition| denotes_coordinate(s, p))
    } else {
        None
    }
}

/// A key denotes at most one position.
pub proof fn lemma_denotes_unique(s: Seq<char>, p: CoordinatePosition, q: CoordinatePosition)
    requires
        denotes_coordinate(s, p),
        denotes_coordinate(s, q),
    ensures
        p == q,
{
    let (a, b, c) = choose|a: Seq<char>, b: Seq<char>, c: Seq<char>|
        #![trigger coordinate_parts(s, a, b, c)]
        coordinate_parts(s, a, b, c) && signed_value(a) == p.x as int && signed_value(b) == p.y as int
            && signed_value(c) == p.z as int;
    let (a2, b2, c2) = choose|a: Seq<char>, b: Seq<char>, c: Seq<char>|
        #![trigger coordinate_parts(s, a, b, c)]
        coordinate_parts(s, a, b, c) && signed_value(a) == q.x as int && signed_value(b) == q.y as int
            && signed_value(c) == q.z as int;
    assert forall|k: int| 0 <= k < a2.len() implies a2[k] != '|' by {
        lemma_signed_no_bar(a2, k);
    }
    assert forall|k: int| 0 <= k < b2.len() implies b2[k] != '|' by {
        lemma_signed_no_bar(b2, k);
    }
    lemma_coordinate_parts_unique(s, a, b, c, a2, b2, c2);
}

/// Parse a coordinate key; see `from_str`.
pub fn parse_key(s: &str) -> (r: Option<CoordinatePosition>)
    ensures
        r == key_coordinate(s@),
{
    match CoordinatePosition::from_str(s) {
        Ok(p) => {
            proof {
                let q = choose|q: CoordinatePosition| denotes_coordinate(s@, q);
                lemma_denotes_unique(s@, p, q);
            }
            Some(p)
        },
        Err(_) => None,
    }
}

proof fn lemma_signed_no_bar(a: Seq<char>, k: int)
    requires
        signed_text(a),
        0 <= k < a.len(),
    ensures
        a[k] != '|',
{
    if a[0] == '-' {
        if k > 0 {
            assert(a[k] == a.drop_first()[k - 1]);
        }
    }
}

/// Two decompositions of one key into three parts are the same.
proof fn lemma_coordinate_parts_unique(
    s: Seq<char>,
    a: Seq<char>,
    b: Seq<char>,
    c: Seq<char>,
    a2: Seq<char>,
    b2: Seq<char>,
    c2: Seq<char>,
)
    requires
        coordinate_parts(s, a, b, c),
        s == seq!['x', ':'] + a2 + seq!['|', 'y', ':'] + b2 + seq!['|', 'z', ':'] + c2,
        forall|k: int| 0 <= k < a2.len() ==> a2[k] != '|',
        forall|k: int| 0 <= k < b2.len() ==> b2[k] != '|',
    ensures
        a == a2,
        b == b2,
        c == c2,
{
    // the first bar after the prefix closes the first part
    if a.len() < a2.len() {
        assert(s[2 + a.len() as int] == '|');
        assert(s[2 + a.len() as int] == a2[a.len() as int]);
    }
    if a2.len() < a.len() {
        assert(s[2 + a2.len() as int] == '|');
        assert(s[2 + a2.len() as int] == a[a2.len() as int]);
        lemma_signed_no_bar(a, a2.len() as int);
    }
    assert(a.len() == a2.len());
    assert(a =~= a2) by {
        assert forall|k: int| 0 <= k < a.len() implies a[k] == a2[k] by {
            assert(s[2 + k] == a[k]);
            assert(s[2 + k] == a2[k]);
        }
    }
    let o = 5 + a.len() as int;
    if b.len() < b2.len() {
        assert(s[o + b.len() as int] == '|');
        assert(s[o + b.len() as int] == b2[b.len() as int]);
    }
    if b2.len() < b.len() {
        assert(s[o + b2.len() as int] == '|');
        assert(s[o + b2.len() as int] == b[b2.len() as int]);
        lemma_signed_no_bar(b, b2.len() as int);
    }
    assert(b.len() == b2.len());
    assert(b =~= b2) by {
        assert forall|k: int| 0 <= k < b.len() implies b[k] == b2[k] by {
            assert(s[o + k] == b[k]);
            assert(s[o + k] == b2[k]);
        }
    }
    let o2 = o + b.len() + 3;
    assert(s.len() == 8 + a.len() + b.len() + c.len());
    assert(s.len() == 8 + a2.len() + b2.len() + c2.len());
    assert(c.len() == c2.len());
    assert(c =~= c2) by {
        assert forall|k: int| 0 <= k < c.len() implies c[k] == c2[k] by {
            assert(s[o2 + k] == c[k]);
            assert(s[o2 + k] == c2[k]);
        }
    }
}

/// The first `|` at or after `from`, if any.
fn find_bar(s: &str, from: usize) -> (r: Option<usize>)
    requires
        from <= s@.len(),
    ensures
        r.is_some() ==> from <= r.unwrap() < s@.len() && s@[r.unwrap() as int] == '|'
            && forall|k: int| from <= k < r.unwrap() ==> s@[k] != '|',
        r.is_none() ==> forall|k: int| from <= k < s@.len() ==> s@[k] != '|',
{
    let len = s.unicode_len();
    let mut i = from;
    while i < len
        invariant
            len == s@.len(),
            from <= i <= len,
            forall|k: int| from <= k < i ==> s@[k] != '|',
        decreases len - i,
    {
        if s.get_char(i) == '|' {
            return Some(i);
        }
        i = i + 1;
    }
    None
}

/// Splits a key `x:<a>|y:<b>|z:<c>` into its three parts, where `a` and `b`
/// hold no `|`.
fn split_coordinate(s: &str) -> (r: Option<(&str, &str, &str)>)
    ensures
        r.is_some() ==> ({
            let (a, b, c) = r.unwrap();
            &&& s@ == seq!['x', ':'] + a@ + seq!['|', 'y', ':'] + b@ + seq!['|', 'z', ':'] + c@
            &&& forall|k: int| 0 <= k < a@.len() ==> a@[k] != '|'
            &&& forall|k: int| 0 <= k < b@.len() ==> b@[k] != '|'
        }),
        r.is_none() ==> forall|a: Seq<char>, b: Seq<char>, c: Seq<char>|
            !coordinate_parts(s@, a, b, c),
{
    let len = s.unicode_len();
    if len < 2 || s.get_char(0) != 'x' || s.get_char(1) != ':' {
        proof { lemma_no_parts_prefix(s@, 0, 'x', ':'); }
        return None;
    }
    let i1 = match find_bar(s, 2) {
        Some(i) => i,
        None => {
            proof { lemma_no_parts_bar(s@); }
            return None;
        },
    };
    if len - i1 <= 2 || s.get_char(i1 + 1) != 'y' || s.get_char(i1 + 2) != ':' {
        proof { lemma_no_parts_first_bar(s@, i1 as int); }
        return None;
    }
    let i2 = match find_bar(s, i1 + 3) {
        Some(i) => i,
        None => {
            proof { lemma_no_parts_second_bar(s@, i1 as int, len as int); }
            return None;
        },
    };
    if len - i2 <= 2 || s.get_char(i2 + 1) != 'z' || s.get_char(i2 + 2) != ':' {
        proof { lemma_no_parts_second_bar(s@, i1 as int, i2 as int); }
        return None;
    }
    let a = s.substring_char(2, i1);
    let b = s.substring_char(i1 + 3, i2);
    let c = s.substring_char(i2 + 3, len);
    assert(s@ =~= seq!['x', ':'] + a@ + seq!['|', 'y', ':'] + b@ + seq!['|', 'z', ':'] + c@);
    Some((a, b, c))
}

proof fn lemma_no_parts_prefix(s: Seq<char>, z: int, c0: char, c1: char)
    requires
        z == 0,
        c0 == 'x',
        c1 == ':',
        s.len() < 2 || s[0] != c0 || s[1] != c1,
    ensures
        forall|a: Seq<char>, b: Seq<char>, c: Seq<char>| !coordinate_parts(s, a, b, c),
{
    assert forall|a: Seq<char>, b: Seq<char>, c: Seq<char>| !coordinate_parts(s, a, b, c) by {
        if coordinate_parts(s, a, b, c) {
            assert(s[0] == 'x' && s[1] == ':');
        }
    }
}

proof fn lemma_no_parts_bar(s: Seq<char>)
    requires
        s.len() >= 2,
        forall|k: int| 2 <= k < s.len() ==> s[k] != '|',
    ensures
        forall|a: Seq<char>, b: Seq<char>, c: Seq<char>| !coordinate_parts(s, a, b, c),
{
    assert forall|a: Seq<char>, b: Seq<char>, c: Seq<char>| !coordinate_parts(s, a, b, c) by {
        if coordinate_parts(s, a, b, c) {
            assert(s[2 + a.len() as int] == '|');
        }
    }
}

proof fn lemma_no_parts_first_bar(s: Seq<char>, i1: int)
    requires
        2 <= i1 < s.len(),
        s[i1] == '|',
        forall|k: int| 2 <= k < i1 ==> s[k] != '|',
        i1 + 2 >= s.len() || s[i1 + 1] != 'y' || s[i1 + 2] != ':',
    ensures
        forall|a: Seq<char>, b: Seq<char>, c: Seq<char>| !coordinate_parts(s, a, b, c),
{
    assert forall|a: Seq<char>, b: Seq<char>, c: Seq<char>| !coordinate_parts(s, a, b, c) by {
        if coordinate_parts(s, a, b, c) {
            assert(s[2 + a.len() as int] == '|');
            if a.len() + 2 > i1 {
                assert(s[i1] == a[i1 - 2]);
                lemma_signed_no_bar(a, i1 - 2);
            }
            assert(i1 == a.len() + 2);
            assert(s[i1 + 1] == 'y' && s[i1 + 2] == ':');
            assert(s.len() >= a.len() + 5 + b.len() + 3 + c.len());
        }
    }
}

proof fn lemma_no_parts_second_bar(s: Seq<char>, i1: int, i2: int)
    requires
        2 <= i1,
        i1 + 2 < s.len(),
        i1 + 3 <= i2 <= s.len(),
        s[i1] == '|',
        s[i1 + 1] == 'y',
        s[i1 + 2] == ':',
        forall|k: int| 2 <= k < i1 ==> s[k] != '|',
        forall|k: int| i1 + 3 <= k < i2 ==> s[k] != '|',
        i2 == s.len() || s[i2] == '|',
        i2 + 2 >= s.len() || s[i2 + 1] != 'z' || s[i2 + 2] != ':',
    ensures
        forall|a: Seq<char>, b: Seq<char>, c: Seq<char>| !coordinate_parts(s, a, b, c),
{
    assert forall|a: Seq<char>, b: Seq<char>, c: Seq<char>| !coordinate_parts(s, a, b, c) by {
        if coordinate_parts(s, a, b, c) {
            assert(s[2 + a.len() as int] == '|');
            if a.len() + 2 > i1 {
                assert(s[i1] == a[i1 - 2]);
                lemma_signed_no_bar(a, i1 - 2);
            }
            assert(i1 == a.len() + 2);
            let o = i1 + 3;
            assert(s[o + b.len() as int] == '|');
            if o + b.len() > i2 {
                assert(s[i2] == b[i2 - o]);
                lemma_signed_no_bar(b, i2 - o);
            }
            assert(i2 == o + b.len());
            assert(s[i2 + 1] == 'z' && s[i2 + 2] == ':');
            assert(s.len() >= i2 + 3 + c.len());
        }
    }
}

impl MinecraftPosition {
    /// Get the position as a string, used in commands (no commas). Does not
    /// contain any facing information.
    pub fn as_command_string(&self) -> (r: String)
        ensures
            r@ == command_text(self.position),
    {
        self.position.as_command_string()
    }

    /// Offset the position with an incoming coordinate position. The facing
    /// direction is kept.
    pub fn with_offset(&self, offset: CoordinatePosition) -> (r: Self)
        requires
            offset_fits(self.position, offset),
        ensures
            r.position.x == self.position.x + offset.x,
            r.position.y == self.position.y + offset.y,
            r.position.z == self.position.z + offset.z,
            r.facing == self.facing,
    {
        MinecraftPosition { position: self.position.with_offset(offset), facing: self.facing }
    }

    /// Move one block in a direction. The facing direction is kept.
    pub fn move_direction(&mut self, direction: MinecraftCardinalDirection)
        requires
            fits_i64(old(self).position.x + step_of(direction).0),
            fits_i64(old(self).position.y + step_of(direction).1),
            fits_i64(old(self).position.z + step_of(direction).2),
        ensures
            final(self).position.x == old(self).position.x + step_of(direction).0,
            final(self).position.y == old(self).position.y + step_of(direction).1,
            final(self).position.z == old(self).position.z + step_of(direction).2,
            final(self).facing == old(self).facing,
    {
        self.position = self.position.with_offset(direction.move_towards());
    }
}

impl MinecraftCardinalDirection {
    /// Rotate a quarter turn. Does nothing on up or down facing.
    pub fn rotate(&mut self, direction: TurnDirection)
        ensures
            *final(self) == turned(*old(self), direction),
    {
        *self = match direction {
            TurnDirection::Right => match *self {
                MinecraftCardinalDirection::North => MinecraftCardinalDirection::East,
                MinecraftCardinalDirection::East => MinecraftCardinalDirection::South,
                MinecraftCardinalDirection::South => MinecraftCardinalDirection::West,
                MinecraftCardinalDirection::West => MinecraftCardinalDirection::North,
                other => other,
            },
            TurnDirection::Left => match *self {
                MinecraftCardinalDirection::North => MinecraftCardinalDirection::West,
                MinecraftCardinalDirection::West => MinecraftCardinalDirection::South,
                MinecraftCardinalDirection::South => MinecraftCardinalDirection::East,
                MinecraftCardinalDirection::East => MinecraftCardinalDirection::North,
                other => other,
            },
        };
    }

    /// A positional offset that moves one unit along this direction.
    pub fn move_towards(&self) -> (r: CoordinatePosition)
        ensures
            (r.x as int, r.y as int, r.z as int) == step_of(*self),
    {
        match self {
            MinecraftCardinalDirection::North => CoordinatePosition { x: 0, y: 0, z: -1 },
            MinecraftCardinalDirection::East => CoordinatePosition { x: 1, y: 0, z: 0 },
            MinecraftCardinalDirection::South => CoordinatePosition { x: 0, y: 0, z: 1 },
            MinecraftCardinalDirection::West => CoordinatePosition { x: -1, y: 0, z: 0 },
            MinecraftCardinalDirection::Up => CoordinatePosition { x: 0, y: 1, z: 0 },
            MinecraftCardinalDirection::Down => CoordinatePosition { x: 0, y: -1, z: 0 },
        }
    }

    /// The lowercase name of the direction (`north`, `up`, ...).
    pub fn name(&self) -> (r: &'static str)
        ensures
            r@ == facing_text(*self),
    {
        match self {
            MinecraftCardinalDirection::North => {
                proof { reveal_strlit("north"); }
                "north"
            },
            MinecraftCardinalDirection::East => {
                proof { reveal_strlit("east"); }
                "east"
            },
            MinecraftCardinalDirection::South => {
                proof { reveal_strlit("south"); }
                "south"
            },
            MinecraftCardinalDirection::West => {
                proof { reveal_strlit("west"); }
                "west"
            },
            MinecraftCardinalDirection::Up => {
                proof { reveal_strlit("up"); }
                "up"
            },
            MinecraftCardinalDirection::Down => {
                proof { reveal_strlit("down"); }
                "down"
            },
        }
    }
}

} // verus!
