use vstd::prelude::*;
use crate::tile::Tile;

verus! {

/// The largest number of cells a map may hold.
pub const MAX_CELLS: i32 = 0x7fff_ffff;

/// Why a map operation was refused.
#[derive(Clone, Copy, Debug, PartialEq, Eq, Structural)]
pub enum MapError {
    /// A coordinate lies outside the map's extents.
    OutOfBounds,
}

/// One authored override: the tile that stands at a coordinate.
#[derive(Clone, Copy, Debug, PartialEq, Eq, Structural)]
pub struct Placement {
    pub x: i32,
    pub y: i32,
    pub z: i32,
    pub tile: Tile,
}

/// Position of cell `(x, y, z)` in the flat buffer: rows of `width` cells,
/// layers of `height` rows. Each layer is a whole `width` by `height` plane,
/// so no two cells of the map share a position.
pub open spec fn cell_index(width: int, height: int, x: int, y: int, z: int) -> int {
    x + width * (y + height * z)
}

/// The tile that a list of overrides puts at `(x, y, z)` on an open map: the
/// last override at that coordinate, or the empty tile where there is none.
pub open spec fn placed_tile(walls: Seq<Placement>, x: int, y: int, z: int) -> Tile
    decreases walls.len(),
{
    if walls.len() == 0 {
        Tile::empty_spec()
    } else {
        let p = walls.last();
        if p.x == x && p.y == y && p.z == z {
            p.tile
        } else {
            placed_tile(walls.drop_last(), x, y, z)
        }
    }
}

/// A cell's flat position lies inside the buffer.
pub proof fn lemma_cell_index_bounds(w: int, h: int, d: int, x: int, y: int, z: int)
    requires
        0 <= x < w,
        0 <= y < h,
        0 <= z < d,
    ensures
        0 < h * d,
        0 <= h * z <= h * d - h,
        0 <= y + h * z < h * d,
        0 <= w * (y + h * z) <= w * (h * d) - w,
        0 <= cell_index(w, h, x, y, z) < w * (h * d),
        w * (h * d) == w * h * d,
        h * d <= w * (h * d),
{
    assert(0 < h * d) by (nonlinear_arith)
        requires 0 < h, 0 < d;
    assert(0 <= h * z <= h * d - h) by (nonlinear_arith)
        requires 0 <= z < d, 0 < h;
    let k = y + h * z;
    assert(0 <= w * k <= w * (h * d) - w) by (nonlinear_arith)
        requires 0 <= k < h * d, 0 < w;
    assert(w * (h * d) == w * h * d) by (nonlinear_arith);
    assert(h * d <= w * (h * d)) by (nonlinear_arith)
        requires 0 < w, 0 < h * d;
}

/// Distinct cells have distinct flat positions.
pub proof fn lemma_cell_index_injective(
    w: int,
    h: int,
    x1: int,
    y1: int,
    z1: int,
    x2: int,
    y2: int,
    z2: int,
)
    requires
        0 <= x1 < w,
        0 <= y1 < h,
        0 <= z1,
        0 <= x2 < w,
        0 <= y2 < h,
        0 <= z2,
        cell_index(w, h, x1, y1, z1) == cell_index(w, h, x2, y2, z2),
    ensures
        x1 == x2 && y1 == y2 && z1 == z2,
{
    let k1 = y1 + h * z1;
    let k2 = y2 + h * z2;
    assert(0 <= k1 && 0 <= k2) by (nonlinear_arith)
        requires 0 <= y1, 0 <= y2, 0 <= z1, 0 <= z2, 0 < h, k1 == y1 + h * z1, k2 == y2 + h * z2;
    assert(k1 == k2) by (nonlinear_arith)
        requires 0 <= x1 < w, 0 <= x2 < w, x1 + w * k1 == x2 + w * k2, 0 <= k1, 0 <= k2;
    assert(z1 == z2) by (nonlinear_arith)
        requires 0 <= y1 < h, 0 <= y2 < h, y1 + h * z1 == y2 + h * z2, 0 <= z1, 0 <= z2;
}

/// A fixed-size three-dimensional grid of tiles, stored as one flat buffer.
pub struct TileMap {
    pub width: i32,
    pub height: i32,
    pub depth: i32,
    pub tiles: Vec<Tile>,
}

impl TileMap {
    /// The extents are positive, the cell count fits, and the buffer holds
    /// one tile per cell.
    pub open spec fn wf(&self) -> bool {
        &&& 0 < self.width
        &&& 0 < self.height
        &&& 0 < self.depth
        &&& self.width * self.height * self.depth <= MAX_CELLS
        &&& self.tiles@.len() == self.width * self.height * self.depth
    }

    pub open spec fn in_bounds(&self, x: int, y: int, z: int) -> bool {
        &&& 0 <= x < self.width
        &&& 0 <= y < self.height
        &&& 0 <= z < self.depth
    }

    pub open spec fn index(&self, x: int, y: int, z: int) -> int {
        cell_index(self.width as int, self.height as int, x, y, z)
    }

    /// The tile at an in-bounds cell.
    pub open spec fn tile(&self, x: int, y: int, z: int) -> Tile {
        self.tiles@[self.index(x, y, z)]
    }

    /// An open map of the given extents with the overrides applied in order;
    /// `OutOfBounds` where some override lies outside the extents.
    pub fn new(width: i32, height: i32, depth: i32, walls: &Vec<Placement>) -> (r: Result<
        TileMap,
        MapError,
    >)
        requires
            0 < width,
            0 < height,
            0 < depth,
            width * height * depth <= MAX_CELLS,
        ensures
            r is Err <==> exists|i: int|
                0 <= i < walls@.len() && !(0 <= #[trigger] walls@[i].x < width && 0 <= walls@[i].y
                    < height && 0 <= walls@[i].z < depth),
            r is Err ==> r == Err::<TileMap, MapError>(MapError::OutOfBounds),
            r matches Ok(m) ==> {
                &&& m.wf()
                &&& m.width == width
                &&& m.height == height
                &&& m.depth == depth
                &&& forall|x: int, y: int, z: int|
                    m.in_bounds(x, y, z) ==> #[trigger] m.tile(x, y, z) == placed_tile(
                        walls@,
                        x,
                        y,
                        z,
                    )
            },
    {
        proof {
            lemma_cell_index_bounds(width as int, height as int, depth as int, 0, 0, 0);
            assert(width * height <= width * height * depth) by (nonlinear_arith)
                requires 0 < width, 0 < height, 0 < depth;
        }
        let count: i32 = width * height * depth;
        let mut tiles: Vec<Tile> = Vec::new();
        let mut k: i32 = 0;
        while k < count
            invariant
                0 <= k <= count,
                tiles@.len() == k,
                forall|j: int| 0 <= j < k ==> #[trigger] tiles@[j] == Tile::empty_spec(),
            decreases count - k,
        {
            tiles.push(Tile::empty());
            k = k + 1;
        }
        let mut m = TileMap { width, height, depth, tiles };
        assert forall|x: int, y: int, z: int| m.in_bounds(x, y, z) implies #[trigger] m.tile(
            x,
            y,
            z,
        ) == placed_tile(walls@.take(0), x, y, z) by {
            lemma_cell_index_bounds(width as int, height as int, depth as int, x, y, z);
        }
        let mut i: usize = 0;
        while i < walls.len()
            invariant
                0 <= i <= walls@.len(),
                m.wf(),
                m.width == width,
                m.height == height,
                m.depth == depth,
                forall|j: int|
                    0 <= j < i ==> {
                        let p = #[trigger] walls@[j];
                        0 <= p.x < width && 0 <= p.y < height && 0 <= p.z < depth
                    },
                forall|x: int, y: int, z: int|
                    m.in_bounds(x, y, z) ==> #[trigger] m.tile(x, y, z) == placed_tile(
                        walls@.take(i as int),
                        x,
                        y,
                        z,
                    ),
            decreases walls@.len() - i,
        {
            let p = walls[i];
            if !m.contains(p.x, p.y, p.z) {
                return Err(MapError::OutOfBounds);
            }
            let at = m.index_of(p.x, p.y, p.z);
            let ghost before = m;
            m.tiles.set(at, p.tile);
            proof {
                let next = walls@.take(i as int + 1);
                assert(next.drop_last() =~= walls@.take(i as int));
                assert(next.last() == p);
                assert forall|x: int, y: int, z: int| m.in_bounds(x, y, z) implies #[trigger] m.tile(
                    x,
                    y,
                    z,
                ) == placed_tile(next, x, y, z) by {
                    lemma_cell_index_bounds(width as int, height as int, depth as int, x, y, z);
                    if x == p.x && y == p.y && z == p.z {
                    } else {
                        if m.index(x, y, z) == at as int {
                            lemma_cell_index_injective(
                                width as int,
                                height as int,
                                x,
                                y,
                                z,
                                p.x as int,
                                p.y as int,
                                p.z as int,
                            );
                        }
                        assert(before.tile(x, y, z) == placed_tile(walls@.take(i as int), x, y, z));
                    }
                }
            }
            i = i + 1;
        }
        assert(walls@.take(i as int) =~= walls@);
        Ok(m)
    }

    /// Whether `(x, y, z)` lies inside the map.
    pub fn contains(&self, x: i32, y: i32, z: i32) -> (r: bool)
        ensures
            r == self.in_bounds(x as int, y as int, z as int),
    {
        0 <= x && x < self.width && 0 <= y && y < self.height && 0 <= z && z < self.depth
    }

    /// Flat position of an in-bounds cell.
    pub fn index_of(&self, x: i32, y: i32, z: i32) -> (r: usize)
        requires
            self.wf(),
            self.in_bounds(x as int, y as int, z as int),
        ensures
            r == self.index(x as int, y as int, z as int),
            r < self.tiles@.len(),
    {
        proof {
            lemma_cell_index_bounds(
                self.width as int,
                self.height as int,
                self.depth as int,
                x as int,
                y as int,
                z as int,
            );
        }
        let hz: i32 = self.height * z;
        let row: i32 = y + hz;
        let i: i32 = x + self.width * row;
        i as usize
    }

    /// The tile at an in-bounds cell; callers establish the bounds first.
    pub fn tile_at(&self, x: i32, y: i32, z: i32) -> (r: Tile)
        requires
            self.wf(),
            self.in_bounds(x as int, y as int, z as int),
        ensures
            r == self.tile(x as int, y as int, z as int),
    {
        let i = self.index_of(x, y, z);
        self.tiles[i]
    }

    /// The tile at a cell, or `OutOfBounds` where the cell lies outside the map.
    pub fn checked_tile_at(&self, x: i32, y: i32, z: i32) -> (r: Result<Tile, MapError>)
        requires
            self.wf(),
        ensures
            self.in_bounds(x as int, y as int, z as int) ==> r == Ok::<Tile, MapError>(
                self.tile(x as int, y as int, z as int),
            ),
            !self.in_bounds(x as int, y as int, z as int) ==> r == Err::<Tile, MapError>(
                MapError::OutOfBounds,
            ),
    {
        if self.contains(x, y, z) {
            Ok(self.tile_at(x, y, z))
        } else {
            Err(MapError::OutOfBounds)
        }
    }
}

} // verus!

verus! {

/// Extents of the standard map.
pub const MAP_WIDTH: i32 = 80;
pub const MAP_HEIGHT: i32 = 50;
pub const MAP_DEPTH: i32 = 20;

pub open spec fn wall_at(x: int, y: int, z: int) -> Placement {
    Placement { x: x as i32, y: y as i32, z: z as i32, tile: Tile::wall_spec() }
}

/// The authored overrides of the standard map, in the order they apply.
pub open spec fn authored_walls_spec() -> Seq<Placement> {
    seq![
        wall_at(30, 22, 10),
        wall_at(10, 22, 10),
        wall_at(10, 12, 1),
        Placement { x: 15, y: 15, z: 0, tile: Tile::empty_spec() },
        wall_at(0, 2, 0),
        wall_at(30, 29, 1),
        wall_at(23, 6, 0),
        wall_at(0, 0, 0),
        wall_at(6, 6, 1),
        wall_at(30, 25, 0),
    ]
}

fn place(x: i32, y: i32, z: i32, tile: Tile) -> (r: Placement)
    ensures
        r == (Placement { x, y, z, tile }),
{
    Placement { x, y, z, tile }
}

/// The authored overrides of the standard map.
pub fn authored_walls() -> (r: Vec<Placement>)
    ensures
        r@ == authored_walls_spec(),
{
    let mut v: Vec<Placement> = Vec::new();
    v.push(place(30, 22, 10, Tile::wall()));
    v.push(place(10, 22, 10, Tile::wall()));
    v.push(place(10, 12, 1, Tile::wall()));
    v.push(place(15, 15, 0, Tile::empty()));
    v.push(place(0, 2, 0, Tile::wall()));
    v.push(place(30, 29, 1, Tile::wall()));
    v.push(place(23, 6, 0, Tile::wall()));
    v.push(place(0, 0, 0, Tile::wall()));
    v.push(place(6, 6, 1, Tile::wall()));
    v.push(place(30, 25, 0, Tile::wall()));
    assert(v@ =~= authored_walls_spec());
    v
}

/// The standard map: open everywhere but for the authored overrides.
pub fn make_map() -> (r: TileMap)
    ensures
        r.wf(),
        r.width == MAP_WIDTH,
        r.height == MAP_HEIGHT,
        r.depth == MAP_DEPTH,
        forall|x: int, y: int, z: int|
            r.in_bounds(x, y, z) ==> #[trigger] r.tile(x, y, z) == placed_tile(
                authored_walls_spec(),
                x,
                y,
                z,
            ),
{
    let walls = authored_walls();
    let built = TileMap::new(MAP_WIDTH, MAP_HEIGHT, MAP_DEPTH, &walls);
    proof {
        if built is Err {
            let i = choose|i: int|
                0 <= i < walls@.len() && !(0 <= #[trigger] walls@[i].x < MAP_WIDTH && 0
                    <= walls@[i].y < MAP_HEIGHT && 0 <= walls@[i].z < MAP_DEPTH);
            assert(0 <= i < 10);
        }
    }
    built.unwrap()
}

} // verus!
