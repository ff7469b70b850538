use vstd::prelude::*;

verus! {

/// Marks an entity as a tile of the level.
#[derive(Clone, Copy, Debug, Default, PartialEq, Eq, Structural)]
pub struct TileMarker;

/// The value of a level grid cell that a tile was made from.
#[derive(Clone, Copy, Debug, PartialEq, Eq, Structural)]
pub struct IntGridValue(pub i32);

} // verus!
