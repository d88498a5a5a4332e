//! Commands that tests run against the world, as console scripts, and the
//! decoding of the console's replies.
use vstd::prelude::*;

use crate::block::{full_name, MinecraftBlock};
use crate::console::{
    air, block_at, keep_refused, place_effect, CommandSpec, ConsoleCommand, PlaceMode, World,
};
use crate::position::{coord, offset_fits, CoordinatePosition, MinecraftPosition};
use crate::text::{
    after_last, contains, seq_contains, text_after_last, trim, trimmed,
};

verus! {

/// The reply to a `setblock` that placed its block.
pub open spec fn placed_text() -> Seq<char> {
    "Changed the block"@
}

/// The reply to a `fill` that filled its region.
pub open spec fn filled_text() -> Seq<char> {
    "Successfully filled"@
}

/// The reply to a `setblock` that left the block as it was.
pub open spec fn refused_text() -> Seq<char> {
    "Could not set the block"@
}

/// The phrase that precedes the data in a reply to `data get block`.
pub open spec fn data_phrase() -> Seq<char> {
    "has the following block data:"@
}

/// The block written to the marker spot by the presence test.
pub open spec fn marker_block() -> Seq<char> {
    "minecraft:bedrock"@
}

/// The marker spot of a plot: one block west and north of its corner, in the
/// gap that no plot covers.
pub open spec fn marker_of(corner: CoordinatePosition) -> CoordinatePosition {
    coord(corner.x - 1, corner.y as int, corner.z - 1)
}

pub open spec fn absolute(corner: CoordinatePosition, p: MinecraftPosition) -> CoordinatePosition {
    coord(corner.x + p.position.x, corner.y + p.position.y, corner.z + p.position.z)
}

/// The console script of the presence test: mark the spot if the block is
/// there, try to mark it again only if it is empty, and clear it.
pub open spec fn presence_script(
    target: CoordinatePosition,
    expected: Seq<char>,
    marker: CoordinatePosition,
) -> Seq<CommandSpec> {
    seq![
        CommandSpec::SetBlockIf { check: target, expected, pos: marker, block: marker_block() },
        CommandSpec::SetBlock { pos: marker, block: marker_block(), facing: None, mode: PlaceMode::Keep },
        CommandSpec::SetBlock { pos: marker, block: air(), facing: None, mode: PlaceMode::Replace },
    ]
}

/// The presence test leaves every block of the world as it was, provided the
/// marker spot starts empty and is not the tested spot; and its second step
/// is refused exactly when the tested spot holds the expected block.
pub proof fn lemma_presence_test_is_read_only(
    w: World,
    target: CoordinatePosition,
    expected: Seq<char>,
    marker: CoordinatePosition,
)
    requires
        target != marker,
        block_at(w, marker) == air(),
    ensures
        ({
            let s = presence_script(target, expected, marker);
            let w1 = place_effect(w, s[0]);
            let w2 = place_effect(w1, s[1]);
            let w3 = place_effect(w2, s[2]);
            &&& forall|p: CoordinatePosition| block_at(w3, p) == block_at(w, p)
            &&& keep_refused(w1, s[1]) == (block_at(w, target) == expected)
        }),
{
    reveal_strlit("minecraft:bedrock");
    reveal_strlit("minecraft:air");
    assert(marker_block().len() != air().len());
    let s = presence_script(target, expected, marker);
    let w1 = place_effect(w, s[0]);
    let w2 = place_effect(w1, s[1]);
    let w3 = place_effect(w2, s[2]);
    assert forall|p: CoordinatePosition| block_at(w3, p) == block_at(w, p) by {
        if p != marker {
            assert(block_at(w1, p) == block_at(w, p));
            assert(block_at(w2, p) == block_at(w, p));
        }
    }
}

/// A command that a test runs. Positions are offsets from the corner of the
/// test's plot.
pub enum TestCommand {
    /// Place a block. Returns a pass or fail.
    SetBlock(MinecraftPosition, MinecraftBlock),
    /// Fill the box between two corners. Returns a pass or fail.
    Fill(MinecraftPosition, MinecraftPosition, MinecraftBlock),
    /// Test for a block at some position, without changing the world.
    /// Returns a pass or fail.
    TestForBlock(MinecraftPosition, MinecraftBlock),
    /// Get data from a block entity at some position, at a data path such as
    /// `Fuel`; an empty path gives all of it. Returns the data, or `None`.
    GetBlockData(MinecraftPosition, String),
    /// Run a raw console command, for what has no structured form.
    RawCommand(String),
}

/// What a command returns.
pub enum TestCommandResult {
    /// A pass/fail.
    Success(bool),
    /// Maybe some data.
    Data(Option<String>),
}

pub enum Outcome {
    Success(bool),
    Data(Option<Seq<char>>),
}

impl View for TestCommandResult {
    type V = Outcome;

    open spec fn view(&self) -> Outcome {
        match self {
            TestCommandResult::Success(b) => Outcome::Success(*b),
            TestCommandResult::Data(None) => Outcome::Data(None),
            TestCommandResult::Data(Some(s)) => Outcome::Data(Some(s@)),
        }
    }
}

impl TestCommandResult {
    /// Extract the pass/fail of a `Success` result.
    pub fn success(self) -> (r: bool)
        requires
            self is Success,
        ensures
            self@ == Outcome::Success(r),
    {
        match self {
            TestCommandResult::Success(b) => b,
            TestCommandResult::Data(_) => false,
        }
    }

    /// Extract the data of a `Data` result.
    pub fn data(self) -> (r: Option<String>)
        requires
            self is Data,
        ensures
            self@ == Outcome::Data(
                match r {
                    Some(s) => Some(s@),
                    None => None,
                },
            ),
    {
        match self {
            TestCommandResult::Data(d) => d,
            TestCommandResult::Success(_) => None,
        }
    }
}

impl TestCommand {
    /// The command's positions, made absolute against `corner`, stay in range.
    pub open spec fn fits(&self, corner: CoordinatePosition) -> bool {
        match self {
            TestCommand::SetBlock(p, _) => offset_fits(corner, p.position),
            TestCommand::Fill(a, b, _) => offset_fits(corner, a.position) && offset_fits(
                corner,
                b.position,
            ),
            TestCommand::TestForBlock(p, _) => offset_fits(corner, p.position) && corner.x > i64::MIN
                && corner.z > i64::MIN,
            TestCommand::GetBlockData(p, _) => offset_fits(corner, p.position),
            TestCommand::RawCommand(_) => true,
        }
    }

    /// The console script that runs the command on the plot at `corner`.
    pub open spec fn script(&self, corner: CoordinatePosition) -> Seq<CommandSpec> {
        match self {
            TestCommand::SetBlock(p, b) => seq![
                CommandSpec::SetBlock {
                    pos: absolute(corner, *p),
                    block: full_name(b@),
                    facing: p.facing,
                    mode: PlaceMode::Replace,
                },
            ],
            TestCommand::Fill(a, c, b) => seq![
                CommandSpec::Fill {
                    from: absolute(corner, *a),
                    to: absolute(corner, *c),
                    block: full_name(b@),
                },
            ],
            TestCommand::TestForBlock(p, b) => presence_script(
                absolute(corner, *p),
                full_name(b@),
                marker_of(corner),
            ),
            TestCommand::GetBlockData(p, path) => seq![
                CommandSpec::DataGet { pos: absolute(corner, *p), path: path@ },
            ],
            TestCommand::RawCommand(s) => seq![CommandSpec::Raw(s@)],
        }
    }

    /// How many console replies the command reads.
    pub open spec fn reply_count(&self) -> nat {
        match self {
            TestCommand::TestForBlock(..) => 3,
            _ => 1,
        }
    }

    /// `r` is what the command returns for the console's `replies`.
    pub open spec fn outcome_of(&self, replies: Seq<Seq<char>>, r: Outcome) -> bool {
        match self {
            TestCommand::SetBlock(..) => r == Outcome::Success(seq_contains(replies[0], placed_text())),
            TestCommand::Fill(..) => r == Outcome::Success(seq_contains(replies[0], filled_text())),
            TestCommand::TestForBlock(..) => r == Outcome::Success(
                seq_contains(replies[1], refused_text()),
            ),
            TestCommand::GetBlockData(..) => if seq_contains(replies[0], data_phrase()) {
                r == Outcome::Data(Some(trimmed(after_last(replies[0], data_phrase()))))
            } else {
                r == Outcome::Data(None)
            },
            TestCommand::RawCommand(..) => if replies[0].len() == 0 {
                r == Outcome::Data(None)
            } else {
                r == Outcome::Data(Some(replies[0]))
            },
        }
    }

    /// The console commands that run this command on the plot at `corner`,
    /// in order. Each is sent whatever the replies to the earlier ones.
    pub fn console_commands(&self, corner: CoordinatePosition) -> (r: Vec<ConsoleCommand>)
        requires
            self.fits(corner),
        ensures
            r@.map_values(|c: ConsoleCommand| c@) == self.script(corner),
            r@.len() == self.reply_count(),
    {
        let mut v: Vec<ConsoleCommand> = Vec::new();
        match self {
            TestCommand::SetBlock(p, b) => {
                v.push(
                    ConsoleCommand::SetBlock {
                        pos: corner.with_offset(p.position),
                        block: b.full_name(),
                        facing: p.facing,
                        mode: PlaceMode::Replace,
                    },
                );
            },
            TestCommand::Fill(a, c, b) => {
                v.push(
                    ConsoleCommand::Fill {
                        from: corner.with_offset(a.position),
                        to: corner.with_offset(c.position),
                        block: b.full_name(),
                    },
                );
            },
            TestCommand::TestForBlock(p, b) => {
                let target = corner.with_offset(p.position);
                let marker = CoordinatePosition { x: corner.x - 1, y: corner.y, z: corner.z - 1 };
                v.push(
                    ConsoleCommand::SetBlockIf {
                        check: target,
                        expected: b.full_name(),
                        pos: marker,
                        block: String::from_str("minecraft:bedrock"),
                    },
                );
                v.push(
                    ConsoleCommand::SetBlock {
                        pos: marker,
                        block: String::from_str("minecraft:bedrock"),
                        facing: None,
                        mode: PlaceMode::Keep,
                    },
                );
                v.push(
                    ConsoleCommand::SetBlock {
                        pos: marker,
                        block: String::from_str("minecraft:air"),
                        facing: None,
                        mode: PlaceMode::Replace,
                    },
                );
            },
            TestCommand::GetBlockData(p, path) => {
                v.push(
                    ConsoleCommand::DataGet {
                        pos: corner.with_offset(p.position),
                        path: path.clone(),
                    },
                );
            },
            TestCommand::RawCommand(s) => {
                v.push(ConsoleCommand::Raw(s.clone()));
            },
        }
        assert(v@.map_values(|c: ConsoleCommand| c@) =~= self.script(corner));
        v
    }

    /// What the command returns, given the console's replies to its commands
    /// in order.
    pub fn result_from_replies(&self, replies: &Vec<String>) -> (r: TestCommandResult)
        requires
            replies@.len() == self.reply_count(),
        ensures
            self.outcome_of(replies@.map_values(|s: String| s@), r@),
    {
        let ghost rs = replies@.map_values(|s: String| s@);
        match self {
            TestCommand::SetBlock(..) => {
                TestCommandResult::Success(contains(replies[0].as_str(), "Changed the block"))
            },
            TestCommand::Fill(..) => {
                TestCommandResult::Success(contains(replies[0].as_str(), "Successfully filled"))
            },
            TestCommand::TestForBlock(..) => {
                TestCommandResult::Success(contains(replies[1].as_str(), "Could not set the block"))
            },
            TestCommand::GetBlockData(..) => {
                let reply = replies[0].as_str();
                if !contains(reply, "has the following block data:") {
                    return TestCommandResult::Data(None);
                }
                let rest = text_after_last(reply, "has the following block data:");
                let d = trim(rest);
                let r = TestCommandResult::Data(Some(String::from_str(d)));
                assert(r@ == Outcome::Data(Some(d@)));
                r
            },
            TestCommand::RawCommand(..) => {
                if replies[0].as_str().unicode_len() == 0 {
                    TestCommandResult::Data(None)
                } else {
                    TestCommandResult::Data(Some(replies[0].clone()))
                }
            },
        }
    }
}

} // verus!
