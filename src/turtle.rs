//! What the harness knows of a turtle.
use vstd::prelude::*;

use crate::position::{MinecraftCardinalDirection, MinecraftPosition};
use crate::vanilla_item::GenericInventory;

verus! {

pub struct Turtle {
    /// The id of this turtle.
    pub id: u16,
    /// The current position of the turtle.
    pub position: MinecraftPosition,
    /// What direction the turtle is facing.
    pub facing: MinecraftCardinalDirection,
    /// How much fuel the turtle currently has.
    pub fuel_level: u16,
    /// The inventory of the turtle.
    pub inventory: GenericInventory,
}

} // verus!
