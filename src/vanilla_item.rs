//! Item kinds as described by the game's data catalog, and inventories of
//! them.
use vstd::prelude::*;

use crate::block::{is_modded_id, str_eq, MODDED_ID_BIT};

verus! {

/// An item kind as described by the game's data catalog.
#[derive(Clone, Debug)]
pub struct MinecraftItem {
    /// Internal name without namespace, e.g. `stick`.
    pub name: String,
    /// Human readable name, e.g. `Stick`.
    pub display_name: String,
    /// Catalog id; the top bit marks modded items.
    pub id: u32,
}

pub struct ItemInfo {
    pub name: Seq<char>,
    pub display_name: Seq<char>,
    pub id: u32,
}

impl View for MinecraftItem {
    type V = ItemInfo;

    open spec fn view(&self) -> ItemInfo {
        ItemInfo { name: self.name@, display_name: self.display_name@, id: self.id }
    }
}

/// The name of an item as used in commands. The game adds `minecraft:` to
/// a bare name by itself; modded items get their namespace.
pub open spec fn item_command_name(i: ItemInfo) -> Seq<char> {
    if is_modded_id(i.id) {
        "computercraft:"@ + i.name
    } else {
        i.name
    }
}

/// The item tables of the game data: the game's own items and those that
/// mods add.
pub struct ItemCatalog {
    pub vanilla: Vec<MinecraftItem>,
    pub modded: Vec<MinecraftItem>,
}

pub open spec fn first_item(items: Seq<ItemInfo>, name: Seq<char>) -> Option<int> {
    if exists|i: int| 0 <= i < items.len() && items[i].name == name {
        Some(
            choose|i: int|
                0 <= i < items.len() && items[i].name == name && forall|j: int|
                    0 <= j < i ==> items[j].name != name,
        )
    } else {
        None
    }
}

fn find_item(items: &Vec<MinecraftItem>, name: &str) -> (r: Option<usize>)
    ensures
        r.is_some() ==> r.unwrap() < items@.len() && first_item(
            items@.map_values(|b: MinecraftItem| b@),
            name@,
        ) == Some(r.unwrap() as int),
        r.is_none() ==> first_item(items@.map_values(|b: MinecraftItem| b@), name@).is_none(),
{
    let ghost infos = items@.map_values(|b: MinecraftItem| b@);
    let mut i: usize = 0;
    while i < items.len()
        invariant
            i <= items@.len(),
            infos == items@.map_values(|b: MinecraftItem| b@),
            forall|j: int| 0 <= j < i ==> infos[j].name != name@,
        decreases items@.len() - i,
    {
        if str_eq(items[i].name.as_str(), name) {
            let ghost k = choose|k: int|
                0 <= k < infos.len() && infos[k].name == name@ && forall|j: int|
                    0 <= j < k ==> infos[j].name != name@;
            assert(infos[i as int].name == name@);
            assert(k == i as int) by {
                if k > i as int {
                    assert(infos[i as int].name != name@);
                }
            }
            return Some(i);
        }
        i = i + 1;
    }
    None
}

impl MinecraftItem {
    /// A copy with the same name, display name and id.
    pub fn duplicate(&self) -> (r: Self)
        ensures
            r@ == self@,
    {
        MinecraftItem { name: self.name.clone(), display_name: self.display_name.clone(), id: self.id }
    }

    /// Get the name of this item as it would be used in commands.
    pub fn get_full_name(&self) -> (r: String)
        ensures
            r@ == item_command_name(self@),
    {
        if !self.is_modded() {
            self.name.clone()
        } else {
            String::from_str("computercraft:").concat(self.name.as_str())
        }
    }

    /// Get the name of this item, not the display name. It cannot be used in
    /// commands.
    pub fn get_name(&self) -> (r: &String)
        ensures
            r@ == self.name@,
    {
        &self.name
    }

    /// Get the display name of the item.
    pub fn get_display_name(&self) -> (r: &String)
        ensures
            r@ == self.display_name@,
    {
        &self.display_name
    }

    /// Check if this is a modded item.
    fn is_modded(&self) -> (r: bool)
        ensures
            r == is_modded_id(self.id),
    {
        self.id >= MODDED_ID_BIT
    }

    /// Look an item up by its bare name, first among the game's own items,
    /// then among modded ones.
    pub fn from_string(catalog: &ItemCatalog, name: &str) -> (r: Option<MinecraftItem>)
        ensures
            ({
                let v = first_item(catalog.vanilla@.map_values(|b: MinecraftItem| b@), name@);
                let m = first_item(catalog.modded@.map_values(|b: MinecraftItem| b@), name@);
                match r {
                    Some(b) => (v.is_some() && b@ == catalog.vanilla@[v.unwrap()]@) || (v.is_none()
                        && m.is_some() && b@ == catalog.modded@[m.unwrap()]@),
                    None => v.is_none() && m.is_none(),
                }
            }),
    {
        match find_item(&catalog.vanilla, name) {
            Some(i) => Some(catalog.vanilla[i].duplicate()),
            None => match find_item(&catalog.modded, name) {
                Some(i) => Some(catalog.modded[i].duplicate()),
                None => None,
            },
        }
    }
}

/// An inventory with a fixed number of slots.
#[derive(Clone, Debug)]
pub struct GenericInventory {
    /// How many slots the inventory has.
    pub size: u16,
    /// The individual slots of the inventory.
    pub slots: Vec<Option<GenericInventorySlot>>,
}

#[derive(Clone, Debug)]
pub struct GenericInventorySlot {
    /// What item is in this slot.
    pub item: MinecraftItem,
    /// How many of that item are in the slot.
    pub count: u8,
}

} // verus!
