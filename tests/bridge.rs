use std::collections::HashMap;

use turtle_harness::block::{BlockCatalog, HasMinecraftBlock, MinecraftBlock};
use turtle_harness::commands::{TestCommand, TestCommandResult};
use turtle_harness::console::{ConsoleCommand, PlaceMode};
use turtle_harness::position::{CoordinatePosition, MinecraftCardinalDirection, MinecraftPosition};

fn block(name: &str, id: u32) -> MinecraftBlock {
    MinecraftBlock { name: name.to_string(), display_name: name.to_string(), id }
}

fn at(x: i64, y: i64, z: i64) -> MinecraftPosition {
    MinecraftPosition { position: CoordinatePosition { x, y, z }, facing: None }
}

/// Runs placement commands against a map of blocks and answers as the
/// server does.
struct FakeWorld {
    blocks: HashMap<CoordinatePosition, String>,
}

impl FakeWorld {
    fn get(&self, p: &CoordinatePosition) -> String {
        self.blocks.get(p).cloned().unwrap_or_else(|| "minecraft:air".to_string())
    }

    fn put(&mut self, p: CoordinatePosition, b: &str) {
        if b == "minecraft:air" {
            self.blocks.remove(&p);
        } else {
            self.blocks.insert(p, b.to_string());
        }
    }

    fn run(&mut self, c: &ConsoleCommand) -> String {
        match c {
            ConsoleCommand::SetBlock { pos, block, mode, .. } => {
                let here = self.get(pos);
                let blocked = match mode {
                    PlaceMode::Keep => here != "minecraft:air",
                    PlaceMode::Replace => here == *block,
                };
                if blocked {
                    "Could not set the block".to_string()
                } else {
                    self.put(*pos, block);
                    format!("Changed the block at {}", pos.as_command_string())
                }
            }
            ConsoleCommand::SetBlockIf { check, expected, pos, block } => {
                if self.get(check) == *expected {
                    self.put(*pos, block);
                }
                String::new()
            }
            _ => String::new(),
        }
    }
}

fn run_presence_test(present: bool) -> (bool, FakeWorld) {
    let corner = CoordinatePosition { x: 10, y: -60, z: 20 };
    let target = CoordinatePosition { x: 12, y: -59, z: 21 };
    let mut world = FakeWorld { blocks: HashMap::new() };
    if present {
        world.put(target, "minecraft:gold_block");
    } else {
        world.put(target, "minecraft:dirt");
    }
    let cmd = TestCommand::TestForBlock(at(2, 1, 1), block("gold_block", 5));
    let cmds = cmd.console_commands(corner);
    assert_eq!(cmds.len(), 3);
    let replies: Vec<String> = cmds.iter().map(|c| world.run(c)).collect();
    let result = cmd.result_from_replies(&replies).success();
    (result, world)
}

#[test]
fn presence_test_finds_the_block_and_cleans_up() {
    let (found, world) = run_presence_test(true);
    assert!(found);
    let target = CoordinatePosition { x: 12, y: -59, z: 21 };
    let marker = CoordinatePosition { x: 9, y: -60, z: 19 };
    assert_eq!(world.get(&target), "minecraft:gold_block");
    assert_eq!(world.get(&marker), "minecraft:air");
    assert_eq!(world.blocks.len(), 1);
}

#[test]
fn presence_test_misses_the_block_and_cleans_up() {
    let (found, world) = run_presence_test(false);
    assert!(!found);
    let target = CoordinatePosition { x: 12, y: -59, z: 21 };
    let marker = CoordinatePosition { x: 9, y: -60, z: 19 };
    assert_eq!(world.get(&target), "minecraft:dirt");
    assert_eq!(world.get(&marker), "minecraft:air");
    assert_eq!(world.blocks.len(), 1);
}

#[test]
fn presence_test_script_text() {
    let corner = CoordinatePosition { x: 0, y: -60, z: 0 };
    let cmd = TestCommand::TestForBlock(at(1, 2, 3), block("sand", 40));
    let lines: Vec<String> = cmd.console_commands(corner).iter().map(|c| c.render()).collect();
    assert_eq!(lines, vec![
        "execute if block 1 -58 3 minecraft:sand run setblock -1 -60 -1 minecraft:bedrock".to_string(),
        "setblock -1 -60 -1 minecraft:bedrock keep".to_string(),
        "setblock -1 -60 -1 minecraft:air".to_string(),
    ]);
}

#[test]
fn set_block_with_facing() {
    let corner = CoordinatePosition { x: 100, y: -60, z: 5 };
    let pos = MinecraftPosition {
        position: CoordinatePosition { x: 1, y: 1, z: 1 },
        facing: Some(MinecraftCardinalDirection::North),
    };
    let cmd = TestCommand::SetBlock(pos, block("piston", 99));
    let lines: Vec<String> = cmd.console_commands(corner).iter().map(|c| c.render()).collect();
    assert_eq!(lines, vec!["setblock 101 -59 6 minecraft:piston[facing=north]".to_string()]);
    let ok = cmd.result_from_replies(&vec!["Changed the block at 101, -59, 6".to_string()]);
    assert!(ok.success());
    let bad = cmd.result_from_replies(&vec!["Could not set the block".to_string()]);
    assert!(!bad.success());
}

#[test]
fn fill_command_and_reply() {
    let corner = CoordinatePosition { x: 0, y: 0, z: 0 };
    let cmd = TestCommand::Fill(at(1, 1, 1), at(3, 1, 3), block("gold_block", 5));
    let lines: Vec<String> = cmd.console_commands(corner).iter().map(|c| c.render()).collect();
    assert_eq!(lines, vec!["fill 1 1 1 3 1 3 minecraft:gold_block".to_string()]);
    assert!(cmd.result_from_replies(&vec!["Successfully filled 9 block(s)".to_string()]).success());
    assert!(!cmd.result_from_replies(&vec!["No blocks were filled".to_string()]).success());
}

#[test]
fn block_data_is_read_after_the_phrase() {
    let corner = CoordinatePosition { x: 0, y: -60, z: 0 };
    let cmd = TestCommand::GetBlockData(at(2, 0, 2), "Fuel".to_string());
    let lines: Vec<String> = cmd.console_commands(corner).iter().map(|c| c.render()).collect();
    assert_eq!(lines, vec!["data get block 2 -60 2 Fuel".to_string()]);
    let reply = "Turtle at 2, -60, 2 has the following block data: 10 \n".to_string();
    assert_eq!(cmd.result_from_replies(&vec![reply]).data(), Some("10".to_string()));
    let none = cmd.result_from_replies(&vec!["Found no elements matching Fuel".to_string()]);
    assert_eq!(none.data(), None);
}

#[test]
fn raw_command_reply() {
    let cmd = TestCommand::RawCommand("seed".to_string());
    let corner = CoordinatePosition { x: 0, y: 0, z: 0 };
    let lines: Vec<String> = cmd.console_commands(corner).iter().map(|c| c.render()).collect();
    assert_eq!(lines, vec!["seed".to_string()]);
    assert!(matches!(cmd.result_from_replies(&vec![String::new()]), TestCommandResult::Data(None)));
    assert_eq!(cmd.result_from_replies(&vec!["Seed: [1]".to_string()]).data(), Some("Seed: [1]".to_string()));
}

#[test]
fn blocks_by_name_and_namespace() {
    let catalog = BlockCatalog {
        vanilla: vec![block("stone", 1), block("gold_block", 41)],
        modded: vec![block("turtle_normal", 0x8000_0001)],
    };
    let stone = MinecraftBlock::from_string(&catalog, "minecraft:stone").unwrap();
    assert_eq!(stone.get_full_name(), "minecraft:stone");
    assert!(!stone.is_modded());
    let turtle = MinecraftBlock::from_string(&catalog, "turtle_normal").unwrap();
    assert!(turtle.is_modded());
    assert_eq!(turtle.get_full_name(), "computercraft:turtle_normal");
    assert!(MinecraftBlock::from_string(&catalog, "diamond_block").is_none());
}
