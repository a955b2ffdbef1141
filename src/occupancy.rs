use vstd::prelude::*;
use crate::grid::TileMap;
use crate::object::Object;

verus! {

/// Some object that blocks stands exactly at `(x, y, z)`.
pub open spec fn occupied(objects: Seq<Object>, x: int, y: int, z: int) -> bool {
    exists|i: int|
        0 <= i < objects.len() && (#[trigger] objects[i]).blocks && objects[i].x == x
            && objects[i].y == y && objects[i].z == z
}

/// The cell cannot be entered: its terrain blocks, or a blocking object
/// stands exactly there.
pub open spec fn blocked_spec(map: TileMap, objects: Seq<Object>, x: int, y: int, z: int) -> bool {
    map.tile(x, y, z).blocked || occupied(objects, x, y, z)
}

/// Whether the in-bounds cell `(x, y, z)` is impassable, by terrain or by a
/// blocking object there.
pub fn is_blocked(x: i32, y: i32, z: i32, map: &TileMap, objects: &[Object]) -> (r: bool)
    requires
        map.wf(),
        map.in_bounds(x as int, y as int, z as int),
    ensures
        r == blocked_spec(*map, objects@, x as int, y as int, z as int),
{
    if map.tile_at(x, y, z).blocked {
        return true;
    }
    let mut i: usize = 0;
    while i < objects.len()
        invariant
            0 <= i <= objects@.len(),
            forall|j: int|
                0 <= j < i ==> !((#[trigger] objects@[j]).blocks && objects@[j].x == x
                    && objects@[j].y == y && objects@[j].z == z),
        decreases objects@.len() - i,
    {
        let o = &objects[i];
        if o.blocks && o.x == x && o.y == y && o.z == z {
            return true;
        }
        i = i + 1;
    }
    false
}

} // verus!
