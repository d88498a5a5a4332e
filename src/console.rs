//! Console commands of the world server, their text, and the effect of the
//! placement commands on the world.
use vstd::prelude::*;

use crate::decimal::{int_decimal, nat_digits, push_digits, push_i64};
use crate::position::{command_text, facing_text, CoordinatePosition, MinecraftCardinalDirection};

verus! {

/// How `setblock` treats a block that is already there.
#[derive(Clone, Copy, Debug, PartialEq, Eq, Structural)]
pub enum PlaceMode {
    /// Replace whatever is there.
    Replace,
    /// Place only where there is air.
    Keep,
}

/// One command on the world server's console. Positions are absolute.
#[derive(Clone, Debug)]
pub enum ConsoleCommand {
    SetBlock {
        pos: CoordinatePosition,
        block: String,
        facing: Option<MinecraftCardinalDirection>,
        mode: PlaceMode,
    },
    /// Places `block` at `pos` only if the block at `check` is `expected`.
    SetBlockIf { check: CoordinatePosition, expected: String, pos: CoordinatePosition, block: String },
    Fill { from: CoordinatePosition, to: CoordinatePosition, block: String },
    DataGet { pos: CoordinatePosition, path: String },
    DataSet { pos: CoordinatePosition, path: String, value: String },
    /// Keeps the chunks of the area between two corners loaded.
    ForceLoad { from: CoordinatePosition, to: CoordinatePosition },
    PlaySound { sound: String, pos: CoordinatePosition },
    /// An invisible armor stand at ground level that shows `text` as its name.
    Label { x: i64, z: i64, text: String },
    TurnOn { id: u16 },
    Shutdown { id: u16 },
    Raw(String),
}

/// A console command with its text as character sequences.
pub enum CommandSpec {
    SetBlock {
        pos: CoordinatePosition,
        block: Seq<char>,
        facing: Option<MinecraftCardinalDirection>,
        mode: PlaceMode,
    },
    SetBlockIf {
        check: CoordinatePosition,
        expected: Seq<char>,
        pos: CoordinatePosition,
        block: Seq<char>,
    },
    Fill { from: CoordinatePosition, to: CoordinatePosition, block: Seq<char> },
    DataGet { pos: CoordinatePosition, path: Seq<char> },
    DataSet { pos: CoordinatePosition, path: Seq<char>, value: Seq<char> },
    ForceLoad { from: CoordinatePosition, to: CoordinatePosition },
    PlaySound { sound: Seq<char>, pos: CoordinatePosition },
    Label { x: i64, z: i64, text: Seq<char> },
    TurnOn { id: u16 },
    Shutdown { id: u16 },
    Raw(Seq<char>),
}

impl View for ConsoleCommand {
    type V = CommandSpec;

    open spec fn view(&self) -> CommandSpec {
        match self {
            ConsoleCommand::SetBlock { pos, block, facing, mode } => CommandSpec::SetBlock {
                pos: *pos,
                block: block@,
                facing: *facing,
                mode: *mode,
            },
            ConsoleCommand::SetBlockIf { check, expected, pos, block } => CommandSpec::SetBlockIf {
                check: *check,
                expected: expected@,
                pos: *pos,
                block: block@,
            },
            ConsoleCommand::Fill { from, to, block } => CommandSpec::Fill {
                from: *from,
                to: *to,
                block: block@,
            },
            ConsoleCommand::DataGet { pos, path } => CommandSpec::DataGet { pos: *pos, path: path@ },
            ConsoleCommand::DataSet { pos, path, value } => CommandSpec::DataSet {
                pos: *pos,
                path: path@,
                value: value@,
            },
            ConsoleCommand::ForceLoad { from, to } => CommandSpec::ForceLoad { from: *from, to: *to },
            ConsoleCommand::PlaySound { sound, pos } => CommandSpec::PlaySound {
                sound: sound@,
                pos: *pos,
            },
            ConsoleCommand::Label { x, z, text } => CommandSpec::Label { x: *x, z: *z, text: text@ },
            ConsoleCommand::TurnOn { id } => CommandSpec::TurnOn { id: *id },
            ConsoleCommand::Shutdown { id } => CommandSpec::Shutdown { id: *id },
            ConsoleCommand::Raw(s) => CommandSpec::Raw(s@),
        }
    }
}

pub open spec fn facing_suffix(facing: Option<MinecraftCardinalDirection>) -> Seq<char> {
    match facing {
        Some(d) => "[facing="@ + facing_text(d) + "]"@,
        None => Seq::empty(),
    }
}

pub open spec fn mode_suffix(mode: PlaceMode) -> Seq<char> {
    match mode {
        PlaceMode::Keep => " keep"@,
        PlaceMode::Replace => Seq::empty(),
    }
}

/// The text sent to the console for a command.
pub open spec fn command_line(c: CommandSpec) -> Seq<char> {
    match c {
        CommandSpec::SetBlock { pos, block, facing, mode } => "setblock "@ + command_text(pos) + " "@
            + block + facing_suffix(facing) + mode_suffix(mode),
        CommandSpec::SetBlockIf { check, expected, pos, block } => "execute if block "@
            + command_text(check) + " "@ + expected + " run setblock "@ + command_text(pos) + " "@
            + block,
        CommandSpec::Fill { from, to, block } => "fill "@ + command_text(from) + " "@ + command_text(
            to,
        ) + " "@ + block,
        CommandSpec::DataGet { pos, path } => "data get block "@ + command_text(pos) + " "@ + path,
        CommandSpec::DataSet { pos, path, value } => "data modify block "@ + command_text(pos) + " "@
            + path + " set value "@ + value,
        CommandSpec::ForceLoad { from, to } => "forceload add "@ + int_decimal(from.x as int) + " "@
            + int_decimal(from.z as int) + " "@ + int_decimal(to.x as int) + " "@ + int_decimal(
            to.z as int,
        ),
        CommandSpec::PlaySound { sound, pos } => "playsound "@ + sound + " master @a "@
            + command_text(pos) + " 1 0.5"@,
        CommandSpec::Label { x, z, text } => "summon minecraft:armor_stand "@ + int_decimal(x as int)
            + " 0 "@ + int_decimal(z as int)
            + " {Invisible:true,CustomNameVisible:true,CustomName:'{\"text\":\""@ + text
            + "\",\"bold\":true}'}"@,
        CommandSpec::TurnOn { id } => "computercraft turn-on "@ + nat_digits(id as nat),
        CommandSpec::Shutdown { id } => "computercraft shutdown "@ + nat_digits(id as nat),
        CommandSpec::Raw(s) => s,
    }
}

fn push_position(out: &mut String, p: CoordinatePosition)
    ensures
        final(out)@ == old(out)@ + command_text(p),
{
    let t = p.as_command_string();
    out.append(t.as_str());
}

impl ConsoleCommand {
    /// The text sent to the console.
    pub fn render(&self) -> (r: String)
        ensures
            r@ == command_line(self@),
    {
        let mut out = String::new();
        match self {
            ConsoleCommand::SetBlock { pos, block, facing, mode } => {
                out.append("setblock ");
                push_position(&mut out, *pos);
                out.append(" ");
                out.append(block.as_str());
                match facing {
                    Some(d) => {
                        out.append("[facing=");
                        out.append(d.name());
                        out.append("]");
                    },
                    None => {},
                }
                match mode {
                    PlaceMode::Keep => out.append(" keep"),
                    PlaceMode::Replace => {},
                }
            },
            ConsoleCommand::SetBlockIf { check, expected, pos, block } => {
                out.append("execute if block ");
                push_position(&mut out, *check);
                out.append(" ");
                out.append(expected.as_str());
                out.append(" run setblock ");
                push_position(&mut out, *pos);
                out.append(" ");
                out.append(block.as_str());
            },
            ConsoleCommand::Fill { from, to, block } => {
                out.append("fill ");
                push_position(&mut out, *from);
                out.append(" ");
                push_position(&mut out, *to);
                out.append(" ");
                out.append(block.as_str());
            },
            ConsoleCommand::DataGet { pos, path } => {
                out.append("data get block ");
                push_position(&mut out, *pos);
                out.append(" ");
                out.append(path.as_str());
            },
            ConsoleCommand::DataSet { pos, path, value } => {
                out.append("data modify block ");
                push_position(&mut out, *pos);
                out.append(" ");
                out.append(path.as_str());
                out.append(" set value ");
                out.append(value.as_str());
            },
            ConsoleCommand::ForceLoad { from, to } => {
                out.append("forceload add ");
                push_i64(&mut out, from.x);
                out.append(" ");
                push_i64(&mut out, from.z);
                out.append(" ");
                push_i64(&mut out, to.x);
                out.append(" ");
                push_i64(&mut out, to.z);
            },
            ConsoleCommand::PlaySound { sound, pos } => {
                out.append("playsound ");
                out.append(sound.as_str());
                out.append(" master @a ");
                push_position(&mut out, *pos);
                out.append(" 1 0.5");
            },
            ConsoleCommand::Label { x, z, text } => {
                out.append("summon minecraft:armor_stand ");
                push_i64(&mut out, *x);
                out.append(" 0 ");
                push_i64(&mut out, *z);
                out.append(" {Invisible:true,CustomNameVisible:true,CustomName:'{\"text\":\"");
                out.append(text.as_str());
                out.append("\",\"bold\":true}'}");
            },
            ConsoleCommand::TurnOn { id } => {
                out.append("computercraft turn-on ");
                push_digits(&mut out, *id as u64);
            },
            ConsoleCommand::Shutdown { id } => {
                out.append("computercraft shutdown ");
                push_digits(&mut out, *id as u64);
            },
            ConsoleCommand::Raw(s) => {
                out.append(s.as_str());
            },
        }
        assert(out@ =~= command_line(self@));
        out
    }
}

/// The blocks of the world: a position that the map leaves out holds air.
pub type World = Map<CoordinatePosition, Seq<char>>;

pub open spec fn air() -> Seq<char> {
    "minecraft:air"@
}

pub open spec fn block_at(w: World, p: CoordinatePosition) -> Seq<char> {
    if w.contains_key(p) {
        w[p]
    } else {
        air()
    }
}

pub open spec fn put(w: World, p: CoordinatePosition, b: Seq<char>) -> World {
    if b == air() {
        w.remove(p)
    } else {
        w.insert(p, b)
    }
}

/// What a placement command does to the world. The other commands do not
/// place single blocks and are not described here; they leave this model as
/// it is.
pub open spec fn place_effect(w: World, c: CommandSpec) -> World {
    match c {
        CommandSpec::SetBlock { pos, block, mode, .. } => match mode {
            PlaceMode::Replace => put(w, pos, block),
            PlaceMode::Keep => if block_at(w, pos) == air() {
                put(w, pos, block)
            } else {
                w
            },
        },
        CommandSpec::SetBlockIf { check, expected, pos, block } => if block_at(w, check) == expected {
            put(w, pos, block)
        } else {
            w
        },
        _ => w,
    }
}

/// A `keep` placement that the server refuses because the spot is taken.
pub open spec fn keep_refused(w: World, c: CommandSpec) -> bool {
    match c {
        CommandSpec::SetBlock { pos, mode, .. } => mode == PlaceMode::Keep && block_at(w, pos)
            != air(),
        _ => false,
    }
}

} // verus!
