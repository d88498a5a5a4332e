//! Block descriptors and the catalog they are looked up in.
use vstd::prelude::*;

use crate::text::after_last;

verus! {

/// Ids at or above this mark a block that a mod adds.
pub const MODDED_ID_BIT: u32 = 0x8000_0000;

/// What the harness knows of a block.
pub struct BlockInfo {
    pub name: Seq<char>,
    pub display_name: Seq<char>,
    pub id: u32,
}

/// A block kind as described by the game's data catalog.
#[derive(Clone, Debug)]
pub struct MinecraftBlock {
    /// Internal name without namespace, e.g. `stone`.
    pub name: String,
    /// Human readable name, e.g. `Stone`.
    pub display_name: String,
    /// Catalog id; the top bit marks modded blocks.
    pub id: u32,
}

impl View for MinecraftBlock {
    type V = BlockInfo;

    open spec fn view(&self) -> BlockInfo {
        BlockInfo { name: self.name@, display_name: self.display_name@, id: self.id }
    }
}

pub open spec fn is_modded_id(id: u32) -> bool {
    id >= MODDED_ID_BIT
}

/// The name of a block as written in commands, with its namespace.
pub open spec fn full_name(b: BlockInfo) -> Seq<char> {
    if is_modded_id(b.id) {
        "computercraft:"@ + b.name
    } else {
        "minecraft:"@ + b.name
    }
}

/// Trait that both block types implement due to holding a block descriptor.
pub trait HasMinecraftBlock {
    /// The descriptor of the block.
    spec fn block_info(&self) -> BlockInfo;

    /// Get the name of this block, not the display name. It cannot be used
    /// in commands.
    fn get_name(&self) -> (r: &String)
        ensures
            r@ == self.block_info().name,
    ;

    /// Get the display name of the block.
    fn get_display_name(&self) -> (r: &String)
        ensures
            r@ == self.block_info().display_name,
    ;

    /// Check if this is a modded block.
    fn is_modded(&self) -> (r: bool)
        ensures
            r == is_modded_id(self.block_info().id),
    ;

    /// Get the name of this block as it would be used in commands, e.g.
    /// `minecraft:stone`.
    fn get_full_name(&self) -> (r: String)
        ensures
            r@ == full_name(self.block_info()),
    ;
}

impl MinecraftBlock {
    /// A copy with the same name, display name and id.
    pub fn duplicate(&self) -> (r: Self)
        ensures
            r@ == self@,
    {
        MinecraftBlock { name: self.name.clone(), display_name: self.display_name.clone(), id: self.id }
    }

    pub fn modded(&self) -> (r: bool)
        ensures
            r == is_modded_id(self.id),
    {
        self.id >= MODDED_ID_BIT
    }

    pub fn full_name(&self) -> (r: String)
        ensures
            r@ == full_name(self@),
    {
        let prefix = if self.modded() {
            "computercraft:"
        } else {
            "minecraft:"
        };
        let r = String::from_str(prefix);
        r.concat(self.name.as_str())
    }

    /// Look a block up by name, first among the game's own blocks, then
    /// among modded ones. A namespace before the last `:` is ignored.
    pub fn from_string(catalog: &BlockCatalog, name: &str) -> (r: Option<MinecraftBlock>)
        ensures
            match r {
                Some(b) => catalog_lookup(*catalog, name@) == Some(b@),
                None => catalog_lookup(*catalog, name@) is None,
            },
    {
        let bare = crate::text::text_after_last(name, ":");
        let ghost vs = catalog.vanilla@.map_values(|b: MinecraftBlock| b@);
        let ghost md = catalog.modded@.map_values(|b: MinecraftBlock| b@);
        proof {
            lemma_first_named(vs, bare@);
            lemma_first_named(md, bare@);
        }
        match find_named(&catalog.vanilla, bare) {
            Some(i) => Some(catalog.vanilla[i].duplicate()),
            None => match find_named(&catalog.modded, bare) {
                Some(i) => Some(catalog.modded[i].duplicate()),
                None => None,
            },
        }
    }
}

/// The block a catalog holds under a name, first among the game's own
/// blocks, then among modded ones. A namespace before the last `:` is
/// ignored.
pub open spec fn catalog_lookup(catalog: BlockCatalog, name: Seq<char>) -> Option<BlockInfo> {
    let bare = after_last(name, ":"@);
    let vs = catalog.vanilla@.map_values(|b: MinecraftBlock| b@);
    let md = catalog.modded@.map_values(|b: MinecraftBlock| b@);
    let v = first_named(vs, bare);
    let m = first_named(md, bare);
    if v is Some {
        Some(vs[v.unwrap()])
    } else if m is Some {
        Some(md[m.unwrap()])
    } else {
        None
    }
}

impl HasMinecraftBlock for MinecraftBlock {
    open spec fn block_info(&self) -> BlockInfo {
        self@
    }

    fn get_name(&self) -> &String {
        &self.name
    }

    fn get_display_name(&self) -> &String {
        &self.display_name
    }

    fn is_modded(&self) -> bool {
        self.modded()
    }

    fn get_full_name(&self) -> String {
        self.full_name()
    }
}

/// The block tables of the game data: the game's own blocks and those that
/// mods add.
pub struct BlockCatalog {
    pub vanilla: Vec<MinecraftBlock>,
    pub modded: Vec<MinecraftBlock>,
}

/// The index of the first block called `name`.
pub open spec fn first_named(blocks: Seq<BlockInfo>, name: Seq<char>) -> Option<int> {
    if exists|i: int| 0 <= i < blocks.len() && blocks[i].name == name {
        Some(
            choose|i: int|
                0 <= i < blocks.len() && blocks[i].name == name && forall|j: int|
                    0 <= j < i ==> blocks[j].name != name,
        )
    } else {
        None
    }
}

proof fn lemma_first_exists(blocks: Seq<BlockInfo>, name: Seq<char>, i: int)
    requires
        0 <= i < blocks.len(),
        blocks[i].name == name,
    ensures
        exists|k: int|
            0 <= k < blocks.len() && blocks[k].name == name && forall|j: int|
                0 <= j < k ==> blocks[j].name != name,
    decreases i,
{
    if exists|j: int| 0 <= j < i && blocks[j].name == name {
        let j = choose|j: int| 0 <= j < i && blocks[j].name == name;
        lemma_first_exists(blocks, name, j);
    } else {
        assert(forall|j: int| 0 <= j < i ==> blocks[j].name != name);
    }
}

/// The first block called `name`, when there is one, is in range and has
/// that name.
pub proof fn lemma_first_named(blocks: Seq<BlockInfo>, name: Seq<char>)
    ensures
        match first_named(blocks, name) {
            Some(i) => 0 <= i < blocks.len() && blocks[i].name == name,
            None => forall|i: int| 0 <= i < blocks.len() ==> blocks[i].name != name,
        },
{
    if exists|i: int| 0 <= i < blocks.len() && blocks[i].name == name {
        let i = choose|i: int| 0 <= i < blocks.len() && blocks[i].name == name;
        lemma_first_exists(blocks, name, i);
    }
}

pub fn str_eq(a: &str, b: &str) -> (r: bool)
    ensures
        r == (a@ == b@),
{
    let n = a.unicode_len();
    if n != b.unicode_len() {
        return false;
    }
    let mut i: usize = 0;
    while i < n
        invariant
            n == a@.len(),
            n == b@.len(),
            i <= n,
            forall|k: int| 0 <= k < i ==> a@[k] == b@[k],
        decreases n - i,
    {
        if a.get_char(i) != b.get_char(i) {
            return false;
        }
        i = i + 1;
    }
    assert(a@ =~= b@);
    true
}

fn find_named(blocks: &Vec<MinecraftBlock>, name: &str) -> (r: Option<usize>)
    ensures
        r.is_some() ==> r.unwrap() < blocks@.len() && first_named(
            blocks@.map_values(|b: MinecraftBlock| b@),
            name@,
        ) == Some(r.unwrap() as int),
        r.is_none() ==> first_named(blocks@.map_values(|b: MinecraftBlock| b@), name@).is_none(),
{
    let ghost infos = blocks@.map_values(|b: MinecraftBlock| b@);
    let mut i: usize = 0;
    while i < blocks.len()
        invariant
            i <= blocks@.len(),
            infos == blocks@.map_values(|b: MinecraftBlock| b@),
            forall|j: int| 0 <= j < i ==> infos[j].name != name@,
        decreases blocks@.len() - i,
    {
        if str_eq(blocks[i].name.as_str(), name) {
            let ghost k = choose|k: int|
                0 <= k < infos.len() && infos[k].name == name@ && forall|j: int|
                    0 <= j < k ==> infos[j].name != name@;
            assert(infos[i as int].name == name@);
            assert(k == i as int) by {
                if k > i as int {
                    assert(infos[i as int].name != name@);
                }
            }
            return Some(i);
        }
        i = i + 1;
    }
    None
}

} // verus!
