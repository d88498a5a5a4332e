use turtle_harness::allocator::PlotAllocator;
use turtle_harness::item::MinecraftItem as HarnessItem;
use turtle_harness::vanilla_item::{ItemCatalog, MinecraftItem};
use turtle_harness::position::CoordinatePosition;
use turtle_harness::session::{check_floor_reply, MinecraftTestHandle, SessionError, TestArea};

fn origin() -> CoordinatePosition {
    CoordinatePosition { x: 0, y: 0, z: 0 }
}

#[test]
fn three_plots_from_fresh_allocator() {
    let mut alloc = PlotAllocator::new(origin());
    let a = alloc.allocate(5, 5).unwrap();
    let b = alloc.allocate(3, 3).unwrap();
    let c = alloc.allocate(5, 5).unwrap();
    assert_eq!((a.x, a.z), (0, 0));
    assert_eq!((b.x, b.z), (9, 0));
    assert_eq!((c.x, c.z), (16, 0));
}

#[test]
fn plots_wrap_to_a_new_row_below_the_deepest() {
    let mut alloc = PlotAllocator::new(CoordinatePosition { x: 0, y: -60, z: 0 });
    let mut corners = Vec::new();
    // plots of width 6 advance the cursor by 10 each: after 20 of them it is
    // at 200, so the next plot starts a new row
    for i in 0..20 {
        let depth = if i == 3 { 12 } else { 5 };
        corners.push(alloc.allocate(6, depth).unwrap());
    }
    assert_eq!(corners[19].x, 190);
    assert_eq!(corners[19].z, 0);
    let next = alloc.allocate(6, 5).unwrap();
    assert_eq!((next.x, next.y, next.z), (0, -60, 16));
}

#[test]
fn plots_grown_by_the_gap_never_overlap() {
    let mut alloc = PlotAllocator::new(origin());
    let sizes: Vec<(u16, u16)> = (0..60).map(|i| ((i * 7 % 23 + 1) as u16, (i * 5 % 17 + 1) as u16)).collect();
    let mut plots = Vec::new();
    for (w, d) in &sizes {
        let c = alloc.allocate(*w, *d).unwrap();
        plots.push((c.x, c.z, *w as i64, *d as i64));
    }
    for i in 0..plots.len() {
        for j in (i + 1)..plots.len() {
            let (ax, az, aw, ad) = plots[i];
            let (bx, bz, bw, bd) = plots[j];
            let apart = ax + aw + 4 <= bx || bx + bw + 4 <= ax || az + ad + 4 <= bz || bz + bd + 4 <= az;
            assert!(apart, "plots {i} and {j} overlap");
        }
    }
}

#[test]
fn session_setup_commands() {
    let mut alloc = PlotAllocator::new(CoordinatePosition { x: 0, y: -60, z: 0 });
    let (handle, cmds) =
        MinecraftTestHandle::new(&mut alloc, TestArea { size_x: 5, size_z: 3 }, "demo").unwrap();
    assert_eq!(handle.corner(), CoordinatePosition { x: 0, y: -60, z: 0 });
    let lines: Vec<String> = cmds.iter().map(|c| c.render()).collect();
    assert_eq!(lines[0], "forceload add 0 0 4 2");
    assert_eq!(lines[1], "fill 0 -60 0 4 -60 2 minecraft:yellow_concrete");
    assert_eq!(
        lines[2],
        "summon minecraft:armor_stand 1 0 -1 {Invisible:true,CustomNameVisible:true,CustomName:'{\"text\":\"demo\",\"bold\":true}'}"
    );
}

#[test]
fn session_rejects_empty_area() {
    let mut alloc = PlotAllocator::new(origin());
    let r = MinecraftTestHandle::new(&mut alloc, TestArea { size_x: 0, size_z: 3 }, "x");
    assert!(matches!(r, Err(SessionError::EmptyArea)));
}

#[test]
fn session_finalized_twice_marks_only_once() {
    let mut alloc = PlotAllocator::new(origin());
    let (mut handle, _) =
        MinecraftTestHandle::new(&mut alloc, TestArea { size_x: 2, size_z: 2 }, "t").unwrap();
    let first = handle.stop(false);
    assert!(handle.done());
    let lines: Vec<String> = first.iter().map(|c| c.render()).collect();
    assert_eq!(lines, vec![
        "playsound minecraft:block.note_block.bit master @a 0 0 0 1 0.5".to_string(),
        "fill 0 0 0 1 0 1 minecraft:red_concrete".to_string(),
    ]);
    let second = handle.stop(true);
    assert!(second.is_empty());
    assert!(handle.done());
}

#[test]
fn passed_session_is_marked_lime() {
    let mut alloc = PlotAllocator::new(origin());
    let (mut handle, _) =
        MinecraftTestHandle::new(&mut alloc, TestArea { size_x: 3, size_z: 1 }, "t").unwrap();
    let lines: Vec<String> = handle.stop(true).iter().map(|c| c.render()).collect();
    assert_eq!(lines[0], "playsound minecraft:block.note_block.bell master @a 0 0 0 1 0.5");
    assert_eq!(lines[1], "fill 0 0 0 2 0 0 minecraft:lime_concrete");
}

#[test]
fn floor_replies() {
    assert_eq!(check_floor_reply("Successfully filled 25 block(s)"), Ok(()));
    assert_eq!(check_floor_reply("That position is not loaded"), Err(SessionError::NotLoaded));
    assert_eq!(
        check_floor_reply("Too many blocks in the specified area"),
        Err(SessionError::TooLarge)
    );
}

#[test]
fn harness_item_names() {
    assert_eq!(HarnessItem::LimeConcrete.full_name(), "minecraft:lime_concrete");
    assert_eq!(HarnessItem::CCTurtleNormal.full_name(), "computercraft:turtle_normal");
    assert_eq!(HarnessItem::Fire.full_name(), "minecraft:fire");
}

#[test]
fn catalog_items_by_name() {
    let item = |n: &str, id: u32| MinecraftItem { name: n.to_string(), display_name: n.to_uppercase(), id };
    let catalog = ItemCatalog {
        vanilla: vec![item("stick", 1), item("coal", 2)],
        modded: vec![item("disk", 0x8000_0002)],
    };
    let coal = MinecraftItem::from_string(&catalog, "coal").unwrap();
    assert_eq!(coal.get_full_name(), "coal");
    assert_eq!(coal.get_display_name(), "COAL");
    let disk = MinecraftItem::from_string(&catalog, "disk").unwrap();
    assert_eq!(disk.get_full_name(), "computercraft:disk");
    assert_eq!(disk.get_name(), "disk");
    assert!(MinecraftItem::from_string(&catalog, "minecraft:coal").is_none());
}
