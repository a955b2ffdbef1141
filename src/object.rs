use vstd::prelude::*;
use crate::color::Rgb;
use crate::grid::TileMap;

verus! {

/// A positioned entity: the player, a monster, an item. It is drawn as one
/// character at its position.
#[derive(Debug)]
pub struct Object {
    pub x: i32,
    pub y: i32,
    pub z: i32,
    pub name: String,
    pub glyph: char,
    pub color: Rgb,
    pub blocks: bool,
    pub alive: bool,
    pub standing: bool,
}

impl Object {
    /// This object after one change of posture: standing flips, and blocks
    /// follows it.
    pub open spec fn toggled(self) -> Object {
        Object { standing: !self.standing, blocks: !self.standing, ..self }
    }

    /// This object placed at another cell, all else kept.
    pub open spec fn placed(self, x: i32, y: i32, z: i32) -> Object {
        Object { x, y, z, ..self }
    }

    /// This object after a move by `(dx, dy, dz)` on `map`: placed at the
    /// destination where the terrain there does not block, else unchanged.
    pub open spec fn moved(self, dx: int, dy: int, dz: int, map: TileMap) -> Object {
        let (nx, ny, nz) = (self.x + dx, self.y + dy, self.z + dz);
        if map.tile(nx, ny, nz).blocked {
            self
        } else {
            self.placed(nx as i32, ny as i32, nz as i32)
        }
    }

    pub fn new(x: i32, y: i32, z: i32, name: &str, glyph: char, color: Rgb, blocks: bool) -> (r:
        Object)
        ensures
            r.x == x && r.y == y && r.z == z,
            r.name@ == name@,
            r.glyph == glyph,
            r.color == color,
            r.blocks == blocks,
            !r.alive,
            r.standing,
    {
        Object {
            x,
            y,
            z,
            name: name.to_string(),
            glyph,
            color,
            blocks,
            alive: false,
            standing: true,
        }
    }

    /// Stand up or lie down: a standing object blocks, a prone one does not.
    pub fn standing(&mut self)
        ensures
            *final(self) == old(self).toggled(),
            final(self).blocks == final(self).standing,
    {
        if !self.standing {
            self.blocks = true;
            self.standing = true;
        } else {
            self.blocks = false;
            self.standing = false;
        }
    }

    pub fn pos(&self) -> (r: (i32, i32, i32))
        ensures
            r == (self.x, self.y, self.z),
    {
        (self.x, self.y, self.z)
    }

    pub fn set_pos(&mut self, x: i32, y: i32, z: i32)
        ensures
            *final(self) == old(self).placed(x, y, z),
    {
        self.x = x;
        self.y = y;
        self.z = z;
    }

    /// Move by `(dx, dy, dz)` where the terrain at the destination does not
    /// block; otherwise stay. Other objects are not consulted.
    pub fn move_by(&mut self, dx: i32, dy: i32, dz: i32, map: &TileMap)
        requires
            map.wf(),
            map.in_bounds(old(self).x + dx, old(self).y + dy, old(self).z + dz),
        ensures
            *final(self) == old(self).moved(dx as int, dy as int, dz as int, *map),
    {
        let nx: i32 = self.x + dx;
        let ny: i32 = self.y + dy;
        let nz: i32 = self.z + dz;
        if !map.tile_at(nx, ny, nz).blocked {
            self.x = nx;
            self.y = ny;
            self.z = nz;
        }
    }
}

/// Two changes of posture bring an object whose blocking follows its posture
/// back to where it was.
pub proof fn lemma_posture_round_trip(o: Object)
    requires
        o.blocks == o.standing,
    ensures
        o.toggled().toggled() == o,
        o.toggled().blocks == o.toggled().standing,
        o.toggled().standing != o.standing,
{
}

/// A move into blocking terrain leaves the object where it was; a move into
/// open terrain shifts it by exactly the offset.
pub proof fn lemma_move_outcome(o: Object, dx: int, dy: int, dz: int, map: TileMap)
    requires
        map.wf(),
        map.in_bounds(o.x + dx, o.y + dy, o.z + dz),
    ensures
        map.tile(o.x + dx, o.y + dy, o.z + dz).blocked ==> o.moved(dx, dy, dz, map) == o,
        !map.tile(o.x + dx, o.y + dy, o.z + dz).blocked ==> {
            let m = o.moved(dx, dy, dz, map);
            &&& m.x == o.x + dx
            &&& m.y == o.y + dy
            &&& m.z == o.z + dz
            &&& m.name == o.name && m.blocks == o.blocks && m.standing == o.standing
        },
{
}

} // verus!
