use turtle_harness::allocator::PlotAllocator;
use turtle_harness::computer::{
    shut_down, turned_on, BuildAction, BuildError, ComputerBuild, ComputerConfigs, ComputerKind,
    ComputerSetup, ProvisionFile,
};
use turtle_harness::console::ConsoleCommand;
use turtle_harness::position::{CoordinatePosition, MinecraftPosition};
use turtle_harness::session::{MinecraftTestHandle, TestArea};

/// A console that keeps the power flag and fuel of one computer.
struct FakeComputer {
    placed: bool,
    on: bool,
    fuel: u64,
    id: u16,
}

impl FakeComputer {
    fn run(&mut self, c: &ConsoleCommand) -> String {
        let line = c.render();
        match c {
            ConsoleCommand::SetBlock { .. } => {
                self.placed = true;
                "Changed the block at 1, -60, 1".to_string()
            }
            ConsoleCommand::DataSet { path, value, .. } if path == "On" => {
                self.on = value == "1b";
                "Modified block data of 1, -60, 1".to_string()
            }
            ConsoleCommand::DataSet { path, value, .. } if path == "Fuel" => {
                let v: u64 = value.parse().unwrap();
                if v == self.fuel {
                    "Nothing changed. The specified properties already have these values".to_string()
                } else {
                    self.fuel = v;
                    "Modified block data of 1, -60, 1".to_string()
                }
            }
            ConsoleCommand::DataGet { path, .. } if path == "ComputerId" => {
                format!("Turtle at 1, -60, 1 has the following block data: {}", self.id)
            }
            ConsoleCommand::Shutdown { id } if *id == self.id => {
                self.on = false;
                "Shutdown 1 / 1 computer".to_string()
            }
            _ => panic!("unexpected command {line}"),
        }
    }
}

fn build(
    kind: ComputerKind,
    config: ComputerConfigs,
    fake: &mut FakeComputer,
) -> (Vec<String>, Vec<(u16, String, String)>, Result<(), BuildError>) {
    let mut alloc = PlotAllocator::new(CoordinatePosition { x: 0, y: -60, z: 0 });
    let (handle, _) =
        MinecraftTestHandle::new(&mut alloc, TestArea { size_x: 3, size_z: 3 }, "agent").unwrap();
    let pos = MinecraftPosition { position: CoordinatePosition { x: 1, y: 0, z: 1 }, facing: None };
    let (mut b, mut action) = ComputerBuild::start(&handle, &pos, ComputerSetup::new(kind, config));
    let mut lines = Vec::new();
    let mut files = Vec::new();
    loop {
        let reply = match action {
            BuildAction::Console(c) => {
                lines.push(c.render());
                fake.run(&c)
            }
            BuildAction::Settle => String::new(),
            BuildAction::WriteFile { id, name, contents } => {
                files.push((id, name, contents));
                String::new()
            }
            BuildAction::Done(_) => return (lines, files, Ok(())),
            BuildAction::Failed(e) => return (lines, files, Err(e)),
        };
        assert!(!b.finished());
        action = b.next(&reply);
    }
}

#[test]
fn built_turtle_is_off_with_its_fuel() {
    let mut fake = FakeComputer { placed: false, on: false, fuel: 0, id: 7 };
    let (lines, files, r) = build(
        ComputerKind::Turtle(Some(10)),
        ComputerConfigs::Startup("print('hi')".to_string()),
        &mut fake,
    );
    assert_eq!(r, Ok(()));
    assert!(fake.placed);
    assert!(!fake.on);
    assert_eq!(fake.fuel, 10);
    assert_eq!(lines, vec![
        "setblock 1 -60 1 computercraft:turtle_normal".to_string(),
        "data modify block 1 -60 1 On set value 1b".to_string(),
        "data get block 1 -60 1 ComputerId".to_string(),
        "computercraft shutdown 7".to_string(),
        "data modify block 1 -60 1 Fuel set value 10".to_string(),
    ]);
    assert_eq!(files, vec![(7, "startup.lua".to_string(), "print('hi')".to_string())]);
}

#[test]
fn fuel_already_at_target_is_accepted() {
    let mut fake = FakeComputer { placed: false, on: false, fuel: 0, id: 3 };
    let (_, _, r) = build(ComputerKind::Turtle(None), ComputerConfigs::Empty, &mut fake);
    assert_eq!(r, Ok(()));
    assert_eq!(fake.fuel, 0);
}

#[test]
fn basic_computer_gets_startup_and_libraries() {
    let mut fake = FakeComputer { placed: false, on: false, fuel: 0, id: 12 };
    let libs = vec![
        ProvisionFile { name: "a.lua".to_string(), contents: "A".to_string() },
        ProvisionFile { name: "b.lua".to_string(), contents: "B".to_string() },
    ];
    let (lines, files, r) = build(
        ComputerKind::Basic,
        ComputerConfigs::StartupIncludingLibraries("S".to_string(), libs),
        &mut fake,
    );
    assert_eq!(r, Ok(()));
    assert_eq!(lines[0], "setblock 1 -60 1 computercraft:computer_normal");
    assert_eq!(lines.len(), 4);
    let names: Vec<&str> = files.iter().map(|f| f.1.as_str()).collect();
    assert_eq!(names, vec!["startup.lua", "a.lua", "b.lua"]);
    assert!(files.iter().all(|f| f.0 == 12));
}

#[test]
fn build_fails_without_an_id() {
    let mut alloc = PlotAllocator::new(CoordinatePosition { x: 0, y: 0, z: 0 });
    let (handle, _) =
        MinecraftTestHandle::new(&mut alloc, TestArea { size_x: 2, size_z: 2 }, "x").unwrap();
    let pos = MinecraftPosition { position: CoordinatePosition { x: 0, y: 1, z: 0 }, facing: None };
    let setup = ComputerSetup::new(ComputerKind::Basic, ComputerConfigs::Empty);
    let (mut b, _) = ComputerBuild::start(&handle, &pos, setup);
    assert!(matches!(b.next("Changed the block at 0, 1, 0"), BuildAction::Console(_)));
    assert!(matches!(b.next("Modified block data of 0, 1, 0"), BuildAction::Settle));
    assert!(matches!(b.next(""), BuildAction::Console(_)));
    let r = b.next("Found no elements matching ComputerId");
    assert!(matches!(r, BuildAction::Failed(BuildError::NoId)));
    assert!(b.finished());
}

#[test]
fn build_fails_when_not_placed() {
    let mut alloc = PlotAllocator::new(CoordinatePosition { x: 0, y: 0, z: 0 });
    let (handle, _) =
        MinecraftTestHandle::new(&mut alloc, TestArea { size_x: 2, size_z: 2 }, "x").unwrap();
    let pos = MinecraftPosition { position: CoordinatePosition { x: 0, y: 1, z: 0 }, facing: None };
    let setup = ComputerSetup::new(ComputerKind::Basic, ComputerConfigs::Empty);
    let (mut b, _) = ComputerBuild::start(&handle, &pos, setup);
    assert!(matches!(b.next("Could not set the block"), BuildAction::Failed(BuildError::NotPlaced)));
}

#[test]
fn power_replies() {
    assert!(turned_on("Turned on 1 / 1 computer"));
    assert!(!turned_on("No such computer"));
    assert!(shut_down("Shutdown 1 / 1 computer"));
    assert!(!shut_down("Turned on 1 / 1 computer"));
}
