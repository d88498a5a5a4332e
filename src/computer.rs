//! Building a computer or turtle for a test: place it, learn the id the world
//! gives it, leave it powered off with its starting fuel, and provision its
//! files.
//!
//! The build is a state machine. Each step returns an action; the caller
//! performs it and hands the console's reply (or an empty text, for actions
//! without one) to the next step.
use vstd::prelude::*;

use crate::commands::data_phrase;
use crate::console::{CommandSpec, ConsoleCommand, PlaceMode};
use crate::decimal::{nat_digits, parse_u16, push_digits, unsigned_text, unsigned_value};
use crate::position::{coord, offset_fits, CoordinatePosition, MinecraftPosition};
use crate::session::MinecraftTestHandle;
use crate::text::{after_last, contains, seq_contains, text_after_last, trim, trimmed};

verus! {

/// What kind of computer to build.
#[derive(Clone, Copy, Debug, PartialEq, Eq, Structural)]
pub enum ComputerKind {
    /// Normal computer.
    Basic,
    /// A turtle, with its starting fuel (zero when not given).
    Turtle(Option<u64>),
}

/// A named text file placed on a computer before it starts.
pub struct ProvisionFile {
    pub name: String,
    pub contents: String,
}

/// The files a computer gets.
pub enum ComputerConfigs {
    /// No files at all.
    Empty,
    /// A `startup.lua` with the given text.
    Startup(String),
    /// A `startup.lua` and support files.
    StartupIncludingLibraries(String, Vec<ProvisionFile>),
}

/// What to build.
pub struct ComputerSetup {
    pub kind: ComputerKind,
    pub config: ComputerConfigs,
}

impl ComputerSetup {
    /// Make a new computer setup for a test.
    pub fn new(kind: ComputerKind, config: ComputerConfigs) -> (r: Self)
        ensures
            r.kind == kind,
            r.config == config,
    {
        ComputerSetup { kind, config }
    }
}

/// The block that represents a kind of computer.
pub open spec fn kind_block(kind: ComputerKind) -> Seq<char> {
    match kind {
        ComputerKind::Basic => "computercraft:computer_normal"@,
        ComputerKind::Turtle(_) => "computercraft:turtle_normal"@,
    }
}

pub open spec fn startup_name() -> Seq<char> {
    "startup.lua"@
}

/// The files a configuration provisions, as (name, contents), in order.
pub open spec fn files_of(config: ComputerConfigs) -> Seq<(Seq<char>, Seq<char>)> {
    match config {
        ComputerConfigs::Empty => Seq::empty(),
        ComputerConfigs::Startup(s) => seq![(startup_name(), s@)],
        ComputerConfigs::StartupIncludingLibraries(s, libs) => seq![(startup_name(), s@)]
            + libs@.map_values(|f: ProvisionFile| (f.name@, f.contents@)),
    }
}

/// A computer that a test built. Its id is kept from tests so that no test
/// depends on the order in which the world hands ids out.
#[derive(Debug)]
pub struct TestComputer {
    id: u16,
}

impl TestComputer {
    pub closed spec fn spec_id(&self) -> u16 {
        self.id
    }

    /// The console command that turns the computer on.
    pub fn turn_on(&self) -> (r: ConsoleCommand)
        ensures
            r@ == (CommandSpec::TurnOn { id: self.spec_id() }),
    {
        ConsoleCommand::TurnOn { id: self.id }
    }

    /// The console command that turns the computer off.
    pub fn turn_off(&self) -> (r: ConsoleCommand)
        ensures
            r@ == (CommandSpec::Shutdown { id: self.spec_id() }),
    {
        ConsoleCommand::Shutdown { id: self.id }
    }
}

/// Whether the reply to `turn_on` confirms it.
pub fn turned_on(reply: &str) -> (r: bool)
    ensures
        r == seq_contains(reply@, "Turned on"@),
{
    contains(reply, "Turned on")
}

/// Whether the reply to `turn_off` confirms it.
pub fn shut_down(reply: &str) -> (r: bool)
    ensures
        r == seq_contains(reply@, "Shutdown"@),
{
    contains(reply, "Shutdown")
}

/// Why a build failed. Each is fatal to the session.
#[derive(Clone, Copy, Debug, PartialEq, Eq, Structural)]
pub enum BuildError {
    /// The computer's block was not placed.
    NotPlaced,
    /// The power flag could not be set.
    NotPowered,
    /// The world reported no id for the computer.
    NoId,
    /// The computer did not shut down.
    NotShutDown,
    /// The fuel level could not be set.
    FuelNotSet,
}

/// Where a build stands.
#[derive(Clone, Copy, Debug, PartialEq, Eq, Structural)]
pub enum BuildStage {
    Place,
    PowerOn,
    SettleOn,
    ReadId,
    PowerOff,
    SettleOff,
    Fuel,
    /// Writing the file with this index next.
    Files(usize),
    Finished,
}

/// What the caller does next.
pub enum BuildAction {
    /// Send the command to the console and hand back its reply.
    Console(ConsoleCommand),
    /// Wait for a power change to take effect.
    Settle,
    /// Write a file into the storage of the computer with this id.
    WriteFile { id: u16, name: String, contents: String },
    /// The computer is built.
    Done(TestComputer),
    /// The build failed.
    Failed(BuildError),
}

pub enum ActionSpec {
    Console(CommandSpec),
    Settle,
    WriteFile { id: u16, name: Seq<char>, contents: Seq<char> },
    Done(u16),
    Failed(BuildError),
}

impl View for BuildAction {
    type V = ActionSpec;

    open spec fn view(&self) -> ActionSpec {
        match self {
            BuildAction::Console(c) => ActionSpec::Console(c@),
            BuildAction::Settle => ActionSpec::Settle,
            BuildAction::WriteFile { id, name, contents } => ActionSpec::WriteFile {
                id: *id,
                name: name@,
                contents: contents@,
            },
            BuildAction::Done(c) => ActionSpec::Done(c.spec_id()),
            BuildAction::Failed(e) => ActionSpec::Failed(*e),
        }
    }
}

/// The id in a reply to `data get block ... ComputerId`.
pub open spec fn id_in_reply(reply: Seq<char>) -> Option<u16> {
    let t = trimmed(after_last(reply, data_phrase()));
    if seq_contains(reply, data_phrase()) && unsigned_text(t) && unsigned_value(t) <= u16::MAX {
        Some(unsigned_value(t) as u16)
    } else {
        None
    }
}

pub open spec fn modified_text() -> Seq<char> {
    "Modified block data of"@
}

/// A computer build in progress.
pub struct ComputerBuild {
    kind: ComputerKind,
    files: Vec<ProvisionFile>,
    /// Where the computer stands, in world coordinates.
    pos: CoordinatePosition,
    stage: BuildStage,
    id: u16,
}

/// The abstract state of a build.
pub struct BuildState {
    pub kind: ComputerKind,
    pub files: Seq<(Seq<char>, Seq<char>)>,
    pub pos: CoordinatePosition,
    pub stage: BuildStage,
    pub id: u16,
}

/// The step after the files are handled: the next file, or the end.
pub open spec fn file_step(s: BuildState, i: int) -> (BuildState, ActionSpec) {
    if i < s.files.len() {
        (
            BuildState { stage: BuildStage::Files((i + 1) as usize), ..s },
            ActionSpec::WriteFile { id: s.id, name: s.files[i].0, contents: s.files[i].1 },
        )
    } else {
        (BuildState { stage: BuildStage::Finished, ..s }, ActionSpec::Done(s.id))
    }
}

/// One step of a build, given the reply to the previous action.
pub open spec fn build_step(s: BuildState, reply: Seq<char>) -> (BuildState, ActionSpec) {
    match s.stage {
        BuildStage::Place => if seq_contains(reply, "Changed the block"@) {
            (
                BuildState { stage: BuildStage::PowerOn, ..s },
                ActionSpec::Console(
                    CommandSpec::DataSet { pos: s.pos, path: "On"@, value: "1b"@ },
                ),
            )
        } else {
            (BuildState { stage: BuildStage::Finished, ..s }, ActionSpec::Failed(BuildError::NotPlaced))
        },
        BuildStage::PowerOn => if seq_contains(reply, modified_text()) {
            (BuildState { stage: BuildStage::SettleOn, ..s }, ActionSpec::Settle)
        } else {
            (BuildState { stage: BuildStage::Finished, ..s }, ActionSpec::Failed(BuildError::NotPowered))
        },
        BuildStage::SettleOn => (
            BuildState { stage: BuildStage::ReadId, ..s },
            ActionSpec::Console(CommandSpec::DataGet { pos: s.pos, path: "ComputerId"@ }),
        ),
        BuildStage::ReadId => match id_in_reply(reply) {
            Some(id) => (
                BuildState { stage: BuildStage::PowerOff, id, ..s },
                ActionSpec::Console(CommandSpec::Shutdown { id }),
            ),
            None => (BuildState { stage: BuildStage::Finished, ..s }, ActionSpec::Failed(BuildError::NoId)),
        },
        BuildStage::PowerOff => if seq_contains(reply, "Shutdown"@) {
            (BuildState { stage: BuildStage::SettleOff, ..s }, ActionSpec::Settle)
        } else {
            (BuildState { stage: BuildStage::Finished, ..s }, ActionSpec::Failed(BuildError::NotShutDown))
        },
        BuildStage::SettleOff => match s.kind {
            ComputerKind::Turtle(fuel) => (
                BuildState { stage: BuildStage::Fuel, ..s },
                ActionSpec::Console(
                    CommandSpec::DataSet {
                        pos: s.pos,
                        path: "Fuel"@,
                        value: nat_digits(
                            match fuel {
                                Some(f) => f as nat,
                                None => 0,
                            },
                        ),
                    },
                ),
            ),
            ComputerKind::Basic => file_step(s, 0),
        },
        BuildStage::Fuel => if seq_contains(reply, modified_text()) || seq_contains(
            reply,
            "Nothing changed."@,
        ) {
            file_step(s, 0)
        } else {
            (BuildState { stage: BuildStage::Finished, ..s }, ActionSpec::Failed(BuildError::FuelNotSet))
        },
        BuildStage::Files(i) => file_step(s, i as int),
        BuildStage::Finished => (s, ActionSpec::Failed(BuildError::NotPlaced)),
    }
}

/// The state and actions after handing `replies` to a build one per step.
/// Steps stop once the build has ended.
pub open spec fn build_run(s: BuildState, replies: Seq<Seq<char>>) -> (BuildState, Seq<ActionSpec>)
    decreases replies.len(),
{
    if replies.len() == 0 || s.stage == BuildStage::Finished {
        (s, Seq::empty())
    } else {
        let (s1, a) = build_step(s, replies[0]);
        let (s2, rest) = build_run(s1, replies.drop_first());
        (s2, seq![a] + rest)
    }
}

proof fn lemma_run_unfold(s: BuildState, replies: Seq<Seq<char>>)
    requires
        replies.len() > 0,
        s.stage != BuildStage::Finished,
    ensures
        build_run(s, replies) == (
            build_run(build_step(s, replies[0]).0, replies.drop_first()).0,
            seq![build_step(s, replies[0]).1] + build_run(
                build_step(s, replies[0]).0,
                replies.drop_first(),
            ).1,
        ),
{
}

proof fn lemma_run_finished(s: BuildState, replies: Seq<Seq<char>>)
    requires
        s.stage == BuildStage::Finished,
    ensures
        build_run(s, replies) == (s, Seq::<ActionSpec>::empty()),
{
}

/// From the stage that writes file `i`, the build writes the remaining files
/// in order and then reports the computer built.
proof fn lemma_file_run(t: BuildState, i: usize, replies: Seq<Seq<char>>)
    requires
        t.stage == BuildStage::Files(i),
        1 <= i <= t.files.len(),
        t.files.len() < usize::MAX,
        replies.len() == t.files.len() - i + 1,
    ensures
        ({
            let acts = build_run(t, replies).1;
            &&& acts.len() == replies.len()
            &&& forall|k: int|
                0 <= k < t.files.len() - i ==> #[trigger] acts[k] == (ActionSpec::WriteFile {
                    id: t.id,
                    name: t.files[i + k].0,
                    contents: t.files[i + k].1,
                })
            &&& acts.last() == ActionSpec::Done(t.id)
        }),
    decreases t.files.len() - i,
{
    lemma_run_unfold(t, replies);
    let (t1, a) = build_step(t, replies[0]);
    if i < t.files.len() {
        assert(t1.stage == BuildStage::Files((i + 1) as usize));
        lemma_file_run(t1, (i + 1) as usize, replies.drop_first());
        let rest = build_run(t1, replies.drop_first()).1;
        let acts = build_run(t, replies).1;
        assert forall|k: int| 0 <= k < t.files.len() - i implies #[trigger] acts[k] == (
        ActionSpec::WriteFile { id: t.id, name: t.files[i + k].0, contents: t.files[i + k].1 }) by {
            if k > 0 {
                assert(acts[k] == rest[k - 1]);
            }
        }
    } else {
        assert(t1.stage == BuildStage::Finished);
        lemma_run_finished(t1, replies.drop_first());
    }
}

/// The replies that confirm each step of a turtle build: the block placed,
/// the power flag set, an id read, the shutdown done, the fuel set.
pub open spec fn turtle_replies_confirm(replies: Seq<Seq<char>>) -> bool {
    &&& seq_contains(replies[0], "Changed the block"@)
    &&& seq_contains(replies[1], modified_text())
    &&& id_in_reply(replies[3]) is Some
    &&& seq_contains(replies[4], "Shutdown"@)
    &&& (seq_contains(replies[6], modified_text()) || seq_contains(replies[6], "Nothing changed."@))
}

/// A turtle build ends with the turtle built exactly when every step was
/// confirmed. Then it has powered the turtle on, read its id, shut it down
/// (confirmed), set its fuel to the quantity asked for, and written every
/// file in order, all before reporting it built.
pub proof fn lemma_turtle_build_run(s: BuildState, replies: Seq<Seq<char>>)
    requires
        s.stage == BuildStage::Place,
        s.kind is Turtle,
        s.files.len() < usize::MAX,
        replies.len() == s.files.len() + 7,
    ensures
        ({
            let acts = build_run(s, replies).1;
            let fuel = match s.kind->Turtle_0 {
                Some(f) => f as nat,
                None => 0,
            };
            let id = id_in_reply(replies[3]).unwrap();
            &&& (acts.len() > 0 && acts.last() is Done) <==> turtle_replies_confirm(replies)
            &&& turtle_replies_confirm(replies) ==> {
                &&& acts.len() == replies.len()
                &&& acts[0] == ActionSpec::Console(
                    CommandSpec::DataSet { pos: s.pos, path: "On"@, value: "1b"@ },
                )
                &&& acts[1] == ActionSpec::Settle
                &&& acts[2] == ActionSpec::Console(
                    CommandSpec::DataGet { pos: s.pos, path: "ComputerId"@ },
                )
                &&& acts[3] == ActionSpec::Console(CommandSpec::Shutdown { id })
                &&& acts[4] == ActionSpec::Settle
                &&& acts[5] == ActionSpec::Console(
                    CommandSpec::DataSet { pos: s.pos, path: "Fuel"@, value: nat_digits(fuel) },
                )
                &&& forall|k: int|
                    0 <= k < s.files.len() ==> #[trigger] acts[6 + k] == (ActionSpec::WriteFile {
                        id,
                        name: s.files[k].0,
                        contents: s.files[k].1,
                    })
                &&& acts.last() == ActionSpec::Done(id)
            }
        }),
{
    let r0 = replies;
    let r1 = r0.drop_first();
    let r2 = r1.drop_first();
    let r3 = r2.drop_first();
    let r4 = r3.drop_first();
    let r5 = r4.drop_first();
    let r6 = r5.drop_first();
    let r7 = r6.drop_first();
    assert(r1[0] == replies[1] && r2[0] == replies[2] && r3[0] == replies[3]);
    assert(r4[0] == replies[4] && r5[0] == replies[5] && r6[0] == replies[6]);
    let s0 = s;
    lemma_run_unfold(s0, r0);
    let s1 = build_step(s0, r0[0]).0;
    if s1.stage == BuildStage::Finished {
        lemma_run_finished(s1, r1);
        return;
    }
    lemma_run_unfold(s1, r1);
    let s2 = build_step(s1, r1[0]).0;
    if s2.stage == BuildStage::Finished {
        lemma_run_finished(s2, r2);
        return;
    }
    lemma_run_unfold(s2, r2);
    let s3 = build_step(s2, r2[0]).0;
    lemma_run_unfold(s3, r3);
    let s4 = build_step(s3, r3[0]).0;
    if s4.stage == BuildStage::Finished {
        lemma_run_finished(s4, r4);
        return;
    }
    lemma_run_unfold(s4, r4);
    let s5 = build_step(s4, r4[0]).0;
    if s5.stage == BuildStage::Finished {
        lemma_run_finished(s5, r5);
        return;
    }
    lemma_run_unfold(s5, r5);
    let s6 = build_step(s5, r5[0]).0;
    lemma_run_unfold(s6, r6);
    let s7 = build_step(s6, r6[0]).0;
    let tail = build_run(s7, r7).1;
    if s.files.len() == 0 {
        lemma_run_finished(s7, r7);
    } else if s7.stage == BuildStage::Finished {
        lemma_run_finished(s7, r7);
    } else {
        assert(s7.stage == BuildStage::Files(1));
        lemma_file_run(s7, 1, r7);
        let acts = build_run(s, replies).1;
        assert forall|k: int| 0 <= k < s.files.len() implies #[trigger] acts[6 + k] == (
        ActionSpec::WriteFile {
            id: id_in_reply(replies[3]).unwrap(),
            name: s.files[k].0,
            contents: s.files[k].1,
        }) by {
            if k > 0 {
                assert(acts[6 + k] == tail[k - 1]);
            }
        }
    }
}

impl ComputerBuild {
    pub closed spec fn state(&self) -> BuildState {
        BuildState {
            kind: self.kind,
            files: self.files@.map_values(|f: ProvisionFile| (f.name@, f.contents@)),
            pos: self.pos,
            stage: self.stage,
            id: self.id,
        }
    }

    pub closed spec fn wf(&self) -> bool {
        match self.stage {
            BuildStage::Files(i) => i <= self.files@.len(),
            _ => true,
        }
    }

    /// Start building a computer at `position` of the test's plot. The first
    /// action places its block. Building in a finished test is a bug of the
    /// test.
    pub fn start(
        handle: &MinecraftTestHandle,
        position: &MinecraftPosition,
        setup: ComputerSetup,
    ) -> (r: (ComputerBuild, BuildAction))
        requires
            !handle.is_done(),
            offset_fits(handle.spec_corner(), position.position),
        ensures
            r.0.wf(),
            r.0.state() == (BuildState {
                kind: setup.kind,
                files: files_of(setup.config),
                pos: coord(
                    handle.spec_corner().x + position.position.x,
                    handle.spec_corner().y + position.position.y,
                    handle.spec_corner().z + position.position.z,
                ),
                stage: BuildStage::Place,
                id: 0,
            }),
            r.1@ == ActionSpec::Console(
                CommandSpec::SetBlock {
                    pos: r.0.state().pos,
                    block: kind_block(setup.kind),
                    facing: position.facing,
                    mode: PlaceMode::Replace,
                },
            ),
    {
        let pos = handle.corner().with_offset(position.position);
        let block = match setup.kind {
            ComputerKind::Basic => String::from_str("computercraft:computer_normal"),
            ComputerKind::Turtle(_) => String::from_str("computercraft:turtle_normal"),
        };
        let files = provision_list(setup.config);
        let build = ComputerBuild { kind: setup.kind, files, pos, stage: BuildStage::Place, id: 0 };
        let action = BuildAction::Console(
            ConsoleCommand::SetBlock { pos, block, facing: position.facing, mode: PlaceMode::Replace },
        );
        (build, action)
    }

    /// Whether the build has ended, built or failed.
    pub fn finished(&self) -> (r: bool)
        ensures
            r == (self.state().stage == BuildStage::Finished),
    {
        self.stage == BuildStage::Finished
    }

    fn file_step(&mut self, i: usize) -> (r: BuildAction)
        requires
            i <= old(self).files@.len(),
        ensures
            (final(self).state(), r@) == file_step(old(self).state(), i as int),
            final(self).wf(),
    {
        if i < self.files.len() {
            let f = &self.files[i];
            let action = BuildAction::WriteFile {
                id: self.id,
                name: f.name.clone(),
                contents: f.contents.clone(),
            };
            self.stage = BuildStage::Files(i + 1);
            action
        } else {
            self.stage = BuildStage::Finished;
            BuildAction::Done(TestComputer { id: self.id })
        }
    }

    /// The next action, given the reply to the previous one (an empty text
    /// after a settle delay or a file write).
    pub fn next(&mut self, reply: &str) -> (r: BuildAction)
        requires
            old(self).wf(),
            old(self).state().stage != BuildStage::Finished,
        ensures
            final(self).wf(),
            (final(self).state(), r@) == build_step(old(self).state(), reply@),
    {
        match self.stage {
            BuildStage::Place => {
                if contains(reply, "Changed the block") {
                    self.stage = BuildStage::PowerOn;
                    BuildAction::Console(
                        ConsoleCommand::DataSet {
                            pos: self.pos,
                            path: String::from_str("On"),
                            value: String::from_str("1b"),
                        },
                    )
                } else {
                    self.stage = BuildStage::Finished;
                    BuildAction::Failed(BuildError::NotPlaced)
                }
            },
            BuildStage::PowerOn => {
                if contains(reply, "Modified block data of") {
                    self.stage = BuildStage::SettleOn;
                    BuildAction::Settle
                } else {
                    self.stage = BuildStage::Finished;
                    BuildAction::Failed(BuildError::NotPowered)
                }
            },
            BuildStage::SettleOn => {
                self.stage = BuildStage::ReadId;
                BuildAction::Console(
                    ConsoleCommand::DataGet { pos: self.pos, path: String::from_str("ComputerId") },
                )
            },
            BuildStage::ReadId => {
                let parsed = if contains(reply, "has the following block data:") {
                    parse_u16(trim(text_after_last(reply, "has the following block data:")))
                } else {
                    None
                };
                match parsed {
                    Some(id) => {
                        self.id = id;
                        self.stage = BuildStage::PowerOff;
                        BuildAction::Console(ConsoleCommand::Shutdown { id })
                    },
                    None => {
                        self.stage = BuildStage::Finished;
                        BuildAction::Failed(BuildError::NoId)
                    },
                }
            },
            BuildStage::PowerOff => {
                if contains(reply, "Shutdown") {
                    self.stage = BuildStage::SettleOff;
                    BuildAction::Settle
                } else {
                    self.stage = BuildStage::Finished;
                    BuildAction::Failed(BuildError::NotShutDown)
                }
            },
            BuildStage::SettleOff => match self.kind {
                ComputerKind::Turtle(fuel) => {
                    let amount: u64 = match fuel {
                        Some(f) => f,
                        None => 0,
                    };
                    let mut value = String::new();
                    push_digits(&mut value, amount);
                    assert(value@ =~= nat_digits(amount as nat));
                    self.stage = BuildStage::Fuel;
                    BuildAction::Console(
                        ConsoleCommand::DataSet { pos: self.pos, path: String::from_str("Fuel"), value },
                    )
                },
                ComputerKind::Basic => self.file_step(0),
            },
            BuildStage::Fuel => {
                if contains(reply, "Modified block data of") || contains(reply, "Nothing changed.") {
                    self.file_step(0)
                } else {
                    self.stage = BuildStage::Finished;
                    BuildAction::Failed(BuildError::FuelNotSet)
                }
            },
            BuildStage::Files(i) => self.file_step(i),
            BuildStage::Finished => BuildAction::Failed(BuildError::NotPlaced),
        }
    }
}

/// The files of a configuration, startup file first.
fn provision_list(config: ComputerConfigs) -> (r: Vec<ProvisionFile>)
    ensures
        r@.map_values(|f: ProvisionFile| (f.name@, f.contents@)) == files_of(config),
{
    let mut out: Vec<ProvisionFile> = Vec::new();
    match config {
        ComputerConfigs::Empty => {},
        ComputerConfigs::Startup(s) => {
            out.push(ProvisionFile { name: String::from_str("startup.lua"), contents: s });
        },
        ComputerConfigs::StartupIncludingLibraries(s, libs) => {
            out.push(ProvisionFile { name: String::from_str("startup.lua"), contents: s });
            let ghost first = out@.map_values(|f: ProvisionFile| (f.name@, f.contents@));
            let ghost orig = libs@;
            let mut libs = libs;
            let n = libs.len();
            while libs.len() > 0
                invariant
                    n == orig.len(),
                    libs@.len() <= n,
                    libs@ == orig.subrange(n - libs@.len(), n as int),
                    out@.map_values(|f: ProvisionFile| (f.name@, f.contents@)) == first
                        + orig.subrange(0, n - libs@.len()).map_values(
                        |f: ProvisionFile| (f.name@, f.contents@),
                    ),
                decreases libs@.len(),
            {
                let ghost k = n - libs@.len();
                let f = libs.remove(0);
                assert(orig[k] == f);
                let ghost before_out = out@;
                let ghost fv = (f.name@, f.contents@);
                out.push(f);
                assert(out@.map_values(|f: ProvisionFile| (f.name@, f.contents@)) =~= before_out.map_values(
                    |f: ProvisionFile| (f.name@, f.contents@),
                ).push(fv));
                assert(orig.subrange(0, k + 1) =~= orig.subrange(0, k).push(orig[k]));
                assert(orig.subrange(0, k + 1).map_values(|f: ProvisionFile| (f.name@, f.contents@))
                    =~= orig.subrange(0, k).map_values(|f: ProvisionFile| (f.name@, f.contents@)).push(
                    fv,
                ));
                assert(libs@ =~= orig.subrange(n - libs@.len(), n as int));
                assert(out@.map_values(|f: ProvisionFile| (f.name@, f.contents@)) =~= first
                    + orig.subrange(0, n - libs@.len()).map_values(
                    |f: ProvisionFile| (f.name@, f.contents@),
                ));
            }
            assert(orig.subrange(0, n as int) =~= orig);
        },
    }
    assert(out@.map_values(|f: ProvisionFile| (f.name@, f.contents@)) =~= files_of(config));
    out
}

} // verus!
