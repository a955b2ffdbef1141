use vstd::prelude::*;

verus! {

/// The static terrain properties of one cell. Movement blocking and sight
/// blocking are independent of each other.
#[derive(Clone, Copy, Debug, PartialEq, Eq, Structural)]
pub struct Tile {
    pub blocked: bool,
    pub block_sight: bool,
}

impl Tile {
    /// The open tile: it blocks neither movement nor sight.
    pub open spec fn empty_spec() -> Tile {
        Tile { blocked: false, block_sight: false }
    }

    /// The wall tile: it blocks both movement and sight.
    pub open spec fn wall_spec() -> Tile {
        Tile { blocked: true, block_sight: true }
    }

    pub fn empty() -> (r: Tile)
        ensures
            r == Tile::empty_spec(),
    {
        Tile { blocked: false, block_sight: false }
    }

    pub fn wall() -> (r: Tile)
        ensures
            r == Tile::wall_spec(),
    {
        Tile { blocked: true, block_sight: true }
    }
}

} // verus!
