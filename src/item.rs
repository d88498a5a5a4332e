//! The fixed set of blocks and items that the harness itself places.
use vstd::prelude::*;

verus! {

#[derive(Clone, Copy, Debug, PartialEq, Eq, Structural)]
pub enum MinecraftItem {
    LimeConcrete,
    RedConcrete,
    YellowConcrete,
    Netherrack,
    GoldBlock,
    RedstoneTorch,
    Fire,
    CCComputerNormal,
    CCTurtleNormal,
}

/// The namespaced name of an item, as used in commands.
pub open spec fn item_name(i: MinecraftItem) -> Seq<char> {
    match i {
        MinecraftItem::LimeConcrete => "minecraft:lime_concrete"@,
        MinecraftItem::RedConcrete => "minecraft:red_concrete"@,
        MinecraftItem::YellowConcrete => "minecraft:yellow_concrete"@,
        MinecraftItem::CCComputerNormal => "computercraft:computer_normal"@,
        MinecraftItem::CCTurtleNormal => "computercraft:turtle_normal"@,
        MinecraftItem::Netherrack => "minecraft:netherrack"@,
        MinecraftItem::GoldBlock => "minecraft:gold_block"@,
        MinecraftItem::RedstoneTorch => "minecraft:redstone_torch"@,
        MinecraftItem::Fire => "minecraft:fire"@,
    }
}

impl MinecraftItem {
    /// The namespaced name of the item, as used in commands.
    pub fn full_name(&self) -> (r: &'static str)
        ensures
            r@ == item_name(*self),
    {
        match self {
            MinecraftItem::LimeConcrete => "minecraft:lime_concrete",
            MinecraftItem::RedConcrete => "minecraft:red_concrete",
            MinecraftItem::YellowConcrete => "minecraft:yellow_concrete",
            MinecraftItem::CCComputerNormal => "computercraft:computer_normal",
            MinecraftItem::CCTurtleNormal => "computercraft:turtle_normal",
            MinecraftItem::Netherrack => "minecraft:netherrack",
            MinecraftItem::GoldBlock => "minecraft:gold_block",
            MinecraftItem::RedstoneTorch => "minecraft:redstone_torch",
            MinecraftItem::Fire => "minecraft:fire",
        }
    }
}

} // verus!
