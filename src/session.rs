//! A test's scoped context: its leased plot, the commands it runs there, and
//! its pass/fail marking.
use vstd::prelude::*;

use crate::allocator::{alloc_step, AllocState, PlotAllocator};
use crate::commands::TestCommand;
use crate::console::{CommandSpec, ConsoleCommand};
use crate::position::{coord, CoordinatePosition};
use crate::text::{contains, seq_contains};

verus! {

/// The area that a test occupies. A floor of this size is laid under it.
#[derive(Clone, Copy, Debug, PartialEq, Eq, Structural)]
pub struct TestArea {
    /// How many blocks long (east direction) this test needs.
    pub size_x: u16,
    /// How many blocks wide (south direction) this test needs.
    pub size_z: u16,
}

/// Why a session could not be set up.
#[derive(Clone, Copy, Debug, PartialEq, Eq, Structural)]
pub enum SessionError {
    /// A side of the requested area is zero.
    EmptyArea,
    /// The plot would leave the range of world coordinates.
    OutOfSpace,
    /// The floor lies in chunks that are not loaded.
    NotLoaded,
    /// The floor is larger than one fill command may change.
    TooLarge,
}

/// The far corner of the floor of a plot.
pub open spec fn far_corner(corner: CoordinatePosition, area: TestArea) -> CoordinatePosition {
    coord(corner.x + area.size_x - 1, corner.y as int, corner.z + area.size_z - 1)
}

pub open spec fn floor_command(corner: CoordinatePosition, area: TestArea, block: Seq<char>) -> CommandSpec {
    CommandSpec::Fill { from: corner, to: far_corner(corner, area), block }
}

/// The commands that prepare a new plot: keep its chunks loaded, lay the
/// yellow floor, and put up the test's name.
pub open spec fn setup_script(corner: CoordinatePosition, area: TestArea, name: Seq<char>) -> Seq<CommandSpec> {
    seq![
        CommandSpec::ForceLoad { from: corner, to: far_corner(corner, area) },
        floor_command(corner, area, "minecraft:yellow_concrete"@),
        CommandSpec::Label { x: (corner.x + 1) as i64, z: (corner.z - 1) as i64, text: name },
    ]
}

/// The commands that close a plot: a sound, and a lime floor for a pass or a
/// red one for a fail.
pub open spec fn finish_script(corner: CoordinatePosition, area: TestArea, passed: bool) -> Seq<CommandSpec> {
    if passed {
        seq![
            CommandSpec::PlaySound { sound: "minecraft:block.note_block.bell"@, pos: corner },
            floor_command(corner, area, "minecraft:lime_concrete"@),
        ]
    } else {
        seq![
            CommandSpec::PlaySound { sound: "minecraft:block.note_block.bit"@, pos: corner },
            floor_command(corner, area, "minecraft:red_concrete"@),
        ]
    }
}

/// The plot of the area at `corner` stays inside the range of coordinates,
/// with room for the label north-east of the corner.
pub open spec fn plot_fits(corner: CoordinatePosition, area: TestArea) -> bool {
    &&& corner.x + area.size_x <= i64::MAX
    &&& corner.z + area.size_z <= i64::MAX
    &&& corner.z > i64::MIN
}

/// The plot for `area` that the allocator in state `s` hands out, and the
/// cursor after it, stay inside the range of world coordinates.
pub open spec fn lease_fits(s: AllocState, area: TestArea) -> bool {
    let (next, c) = alloc_step(s, area.size_x as int, area.size_z as int);
    &&& next.x <= i64::MAX
    &&& c.1 <= i64::MAX
    &&& plot_fits(coord(c.0, 0, c.1), area)
}

/// A handle of a running test.
#[derive(Debug)]
pub struct MinecraftTestHandle {
    /// The area that this test occupies.
    area: TestArea,
    /// The corner of the plot with the smallest coordinates; commands of the
    /// test are relative to it.
    corner: CoordinatePosition,
    /// Set once the test has been marked as pass or fail.
    done: bool,
}

impl MinecraftTestHandle {
    pub closed spec fn spec_area(&self) -> TestArea {
        self.area
    }

    pub closed spec fn spec_corner(&self) -> CoordinatePosition {
        self.corner
    }

    pub closed spec fn is_done(&self) -> bool {
        self.done
    }

    pub closed spec fn wf(&self) -> bool {
        self.area.size_x >= 1 && self.area.size_z >= 1 && plot_fits(self.corner, self.area)
    }

    /// Lease a plot for a test of `area` and return the handle with the
    /// console commands that prepare the plot.
    pub fn new(
        allocator: &mut PlotAllocator,
        area: TestArea,
        test_name: &str,
    ) -> (r: Result<(MinecraftTestHandle, Vec<ConsoleCommand>), SessionError>)
        requires
            old(allocator).wf(),
        ensures
            final(allocator).wf(),
            area.size_x == 0 || area.size_z == 0 ==> r == Err::<
                (MinecraftTestHandle, Vec<ConsoleCommand>),
                SessionError,
            >(SessionError::EmptyArea),
            r.is_ok() ==> ({
                let (h, cmds) = r.unwrap();
                let (next, c) = alloc_step(old(allocator).state(), area.size_x as int, area.size_z as int);
                &&& h.wf()
                &&& !h.is_done()
                &&& h.spec_area() == area
                &&& h.spec_corner().x == c.0 && h.spec_corner().z == c.1
                &&& h.spec_corner().y == old(allocator).level()
                &&& final(allocator).state() == next
                &&& cmds@.map_values(|c: ConsoleCommand| c@) == setup_script(h.spec_corner(), area, test_name@)
            }),
            final(allocator).level() == old(allocator).level(),
            area.size_x == 0 || area.size_z == 0 ==> final(allocator).state() == old(allocator).state(),
            ({
                let (next, c) = alloc_step(old(allocator).state(), area.size_x as int, area.size_z as int);
                let allocated = next.x <= i64::MAX && c.1 <= i64::MAX;
                area.size_x > 0 && area.size_z > 0 ==> (allocated ==> final(allocator).state() == next)
                    && (!allocated ==> final(allocator).state() == old(allocator).state())
            }),
            area.size_x > 0 && area.size_z > 0 ==> (r.is_ok() <==> lease_fits(
                old(allocator).state(),
                area,
            )),
            area.size_x > 0 && area.size_z > 0 && !lease_fits(old(allocator).state(), area) ==> r
                == Err::<(MinecraftTestHandle, Vec<ConsoleCommand>), SessionError>(
                SessionError::OutOfSpace,
            ),
    {
        if area.size_x == 0 || area.size_z == 0 {
            return Err(SessionError::EmptyArea);
        }
        let corner = match allocator.allocate(area.size_x, area.size_z) {
            Some(c) => c,
            None => return Err(SessionError::OutOfSpace),
        };
        if corner.z > i64::MAX - area.size_z as i64 || corner.z == i64::MIN || corner.x > i64::MAX
            - area.size_x as i64 {
            return Err(SessionError::OutOfSpace);
        }
        let handle = MinecraftTestHandle { area, corner, done: false };
        let far = handle.far_corner();
        let mut cmds: Vec<ConsoleCommand> = Vec::new();
        cmds.push(ConsoleCommand::ForceLoad { from: corner, to: far });
        cmds.push(
            ConsoleCommand::Fill {
                from: corner,
                to: far,
                block: String::from_str("minecraft:yellow_concrete"),
            },
        );
        cmds.push(
            ConsoleCommand::Label { x: corner.x + 1, z: corner.z - 1, text: String::from_str(test_name) },
        );
        assert(cmds@.map_values(|c: ConsoleCommand| c@) =~= setup_script(corner, area, test_name@));
        Ok((handle, cmds))
    }

    fn far_corner(&self) -> (r: CoordinatePosition)
        requires
            self.wf(),
        ensures
            r == far_corner(self.corner, self.area),
    {
        CoordinatePosition {
            x: self.corner.x + self.area.size_x as i64 - 1,
            y: self.corner.y,
            z: self.corner.z + self.area.size_z as i64 - 1,
        }
    }

    /// The console commands that run a test command on this plot.
    /// Running a command after the test is finished is a bug of the test.
    pub fn command(&self, command: &TestCommand) -> (r: Vec<ConsoleCommand>)
        requires
            !self.is_done(),
            command.fits(self.spec_corner()),
        ensures
            r@.map_values(|c: ConsoleCommand| c@) == command.script(self.spec_corner()),
            r@.len() == command.reply_count(),
    {
        command.console_commands(self.corner)
    }

    /// Get the area of the test.
    pub fn area(&self) -> (r: TestArea)
        ensures
            r == self.spec_area(),
    {
        self.area
    }

    /// Get the corner position of the test.
    pub fn corner(&self) -> (r: CoordinatePosition)
        ensures
            r == self.spec_corner(),
    {
        self.corner
    }

    pub fn done(&self) -> (r: bool)
        ensures
            r == self.is_done(),
    {
        self.done
    }

    /// Finish the test: the commands that mark the plot as passed or failed.
    /// Only the first call marks the plot; later calls return no commands.
    pub fn stop(&mut self, passed: bool) -> (r: Vec<ConsoleCommand>)
        requires
            old(self).wf(),
        ensures
            final(self).wf(),
            final(self).is_done(),
            final(self).spec_area() == old(self).spec_area(),
            final(self).spec_corner() == old(self).spec_corner(),
            old(self).is_done() ==> r@.len() == 0,
            !old(self).is_done() ==> r@.map_values(|c: ConsoleCommand| c@) == finish_script(
                old(self).spec_corner(),
                old(self).spec_area(),
                passed,
            ),
    {
        let mut cmds: Vec<ConsoleCommand> = Vec::new();
        if self.done {
            return cmds;
        }
        let far = self.far_corner();
        if passed {
            cmds.push(
                ConsoleCommand::PlaySound {
                    sound: String::from_str("minecraft:block.note_block.bell"),
                    pos: self.corner,
                },
            );
            cmds.push(
                ConsoleCommand::Fill {
                    from: self.corner,
                    to: far,
                    block: String::from_str("minecraft:lime_concrete"),
                },
            );
        } else {
            cmds.push(
                ConsoleCommand::PlaySound {
                    sound: String::from_str("minecraft:block.note_block.bit"),
                    pos: self.corner,
                },
            );
            cmds.push(
                ConsoleCommand::Fill {
                    from: self.corner,
                    to: far,
                    block: String::from_str("minecraft:red_concrete"),
                },
            );
        }
        self.done = true;
        assert(cmds@.map_values(|c: ConsoleCommand| c@) =~= finish_script(
            self.corner,
            self.area,
            passed,
        ));
        cmds
    }
}

/// Checks the reply to a floor fill.
pub fn check_floor_reply(reply: &str) -> (r: Result<(), SessionError>)
    ensures
        seq_contains(reply@, "is not loaded"@) ==> r == Err::<(), SessionError>(SessionError::NotLoaded),
        !seq_contains(reply@, "is not loaded"@) && seq_contains(reply@, "Too many blocks"@) ==> r
            == Err::<(), SessionError>(SessionError::TooLarge),
        !seq_contains(reply@, "is not loaded"@) && !seq_contains(reply@, "Too many blocks"@) ==> r
            == Ok::<(), SessionError>(()),
{
    if contains(reply, "is not loaded") {
        Err(SessionError::NotLoaded)
    } else if contains(reply, "Too many blocks") {
        Err(SessionError::TooLarge)
    } else {
        Ok(())
    }
}

} // verus!
