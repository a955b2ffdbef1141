use vstd::prelude::*;
use crate::color::{Palette, Rgb};
use crate::grid::{MapError, TileMap};
use crate::object::Object;
use crate::occupancy::{blocked_spec, is_blocked, occupied};
use crate::visibility::Visibility;

verus! {

/// One player command per turn.
#[derive(Clone, Copy, Debug, PartialEq, Eq, Structural)]
pub enum Action {
    MoveNorth,
    MoveSouth,
    MoveWest,
    MoveEast,
    TogglePosture,
    ToggleFullscreen,
    Quit,
    Ignore,
}

/// The keys that the controls tell apart.
#[derive(Clone, Copy, Debug, PartialEq, Eq, Structural)]
pub enum KeyName {
    Enter,
    Escape,
    Up,
    Down,
    Left,
    Right,
    Other,
}

/// What a turn asks of the display, beyond the simulation.
#[derive(Clone, Copy, Debug, PartialEq, Eq, Structural)]
pub enum Effect {
    Continue,
    ToggleFullscreen,
    Quit,
}

/// The command bound to a key press.
pub open spec fn action_for_key_spec(key: KeyName, alt: bool, printable: char) -> Action {
    match key {
        KeyName::Enter if alt => Action::ToggleFullscreen,
        KeyName::Escape => Action::Quit,
        KeyName::Up => Action::MoveNorth,
        KeyName::Down => Action::MoveSouth,
        KeyName::Left => Action::MoveWest,
        KeyName::Right => Action::MoveEast,
        _ => if printable == 's' { Action::TogglePosture } else { Action::Ignore },
    }
}

/// The single-step offset of a move, `(0, 0, 0)` for any other command.
pub open spec fn delta(a: Action) -> (int, int, int) {
    match a {
        Action::MoveNorth => (0, -1, 0),
        Action::MoveSouth => (0, 1, 0),
        Action::MoveWest => (-1, 0, 0),
        Action::MoveEast => (1, 0, 0),
        _ => (0, 0, 0),
    }
}

pub open spec fn is_move(a: Action) -> bool {
    a is MoveNorth || a is MoveSouth || a is MoveWest || a is MoveEast
}

pub open spec fn effect_of(a: Action) -> Effect {
    match a {
        Action::ToggleFullscreen => Effect::ToggleFullscreen,
        Action::Quit => Effect::Quit,
        _ => Effect::Continue,
    }
}

/// The command bound to a key press: Alt+Enter, Escape, the four arrows and
/// `s`; anything else is ignored.
pub fn action_for_key(key: KeyName, alt: bool, printable: char) -> (r: Action)
    ensures
        r == action_for_key_spec(key, alt, printable),
{
    match key {
        KeyName::Enter if alt => Action::ToggleFullscreen,
        KeyName::Escape => Action::Quit,
        KeyName::Up => Action::MoveNorth,
        KeyName::Down => Action::MoveSouth,
        KeyName::Left => Action::MoveWest,
        KeyName::Right => Action::MoveEast,
        _ => if printable == 's' {
            Action::TogglePosture
        } else {
            Action::Ignore
        },
    }
}

/// The simulation state that one loop owns: the map, the player (the
/// viewpoint), the other occupants and the last field-of-view result.
pub struct Session {
    pub map: TileMap,
    pub player: Object,
    pub others: Vec<Object>,
    pub visibility: Visibility,
    pub palette: Palette,
}

impl Session {
    pub open spec fn wf(&self) -> bool {
        &&& self.map.wf()
        &&& self.visibility.wf()
        &&& self.visibility.width == self.map.width
        &&& self.visibility.height == self.map.height
        &&& self.map.in_bounds(self.player.x as int, self.player.y as int, self.player.z as int)
    }

    /// Every entity, the player first.
    pub open spec fn entities(&self) -> Seq<Object> {
        seq![self.player].add(self.others@)
    }

    /// The last field-of-view result was not computed from the player's
    /// current `(x, y)`.
    pub open spec fn fov_stale(&self) -> bool {
        self.visibility.stale_at(self.player.x as int, self.player.y as int)
    }

    /// The state after one command. A move whose destination lies outside
    /// the map changes nothing; one inside it follows the player's own rule.
    pub open spec fn after(self, a: Action) -> Session {
        let (dx, dy, dz) = delta(a);
        let p = self.player;
        if is_move(a) {
            if self.map.in_bounds(p.x + dx, p.y + dy, p.z + dz) {
                Session { player: p.moved(dx, dy, dz, self.map), ..self }
            } else {
                self
            }
        } else if a is TogglePosture {
            Session { player: p.toggled(), ..self }
        } else {
            self
        }
    }

    /// A session with no field-of-view result yet; `OutOfBounds` where the
    /// player stands outside the map.
    pub fn new(map: TileMap, player: Object, others: Vec<Object>, palette: Palette) -> (r: Result<
        Session,
        MapError,
    >)
        requires
            map.wf(),
        ensures
            !map.in_bounds(player.x as int, player.y as int, player.z as int) ==> r is Err,
            map.in_bounds(player.x as int, player.y as int, player.z as int) ==> r is Ok,
            r is Err ==> r == Err::<Session, MapError>(MapError::OutOfBounds),
            r matches Ok(s) ==> {
                &&& s.wf()
                &&& s.map == map
                &&& s.player == player
                &&& s.others == others
                &&& s.palette == palette
                &&& s.visibility.origin is None
            },
    {
        if !map.contains(player.x, player.y, player.z) {
            return Err(MapError::OutOfBounds);
        }
        proof {
            assert(map.width * map.height <= map.width * map.height * map.depth) by (nonlinear_arith)
                requires 0 < map.width, 0 < map.height, 0 < map.depth;
        }
        let visibility = Visibility::new(map.width, map.height);
        Ok(Session { map, player, others, visibility, palette })
    }

    /// Apply one command to the player.
    pub fn apply(&mut self, a: Action) -> (r: Effect)
        requires
            old(self).wf(),
        ensures
            final(self).wf(),
            *final(self) == old(self).after(a),
            r == effect_of(a),
    {
        let (dx, dy, dz): (i32, i32, i32) = match a {
            Action::MoveNorth => (0, -1, 0),
            Action::MoveSouth => (0, 1, 0),
            Action::MoveWest => (-1, 0, 0),
            Action::MoveEast => (1, 0, 0),
            _ => (0, 0, 0),
        };
        match a {
            Action::MoveNorth | Action::MoveSouth | Action::MoveWest | Action::MoveEast => {
                let nx: i32 = self.player.x + dx;
                let ny: i32 = self.player.y + dy;
                let nz: i32 = self.player.z + dz;
                if self.map.contains(nx, ny, nz) {
                    self.player.move_by(dx, dy, dz, &self.map);
                }
                Effect::Continue
            },
            Action::TogglePosture => {
                self.player.standing();
                Effect::Continue
            },
            Action::ToggleFullscreen => Effect::ToggleFullscreen,
            Action::Quit => Effect::Quit,
            Action::Ignore => Effect::Continue,
        }
    }

    /// Whether the field of view must be computed anew this turn: exactly
    /// when the player's `(x, y)` differs from the last result's viewpoint.
    pub fn needs_fov(&self) -> (r: bool)
        ensures
            r == self.fov_stale(),
    {
        self.visibility.needs_recompute(self.player.x, self.player.y)
    }

    /// Keep `lit`, computed from the player's current `(x, y)`, as the
    /// current result.
    pub fn install_fov(&mut self, lit: Vec<bool>)
        requires
            old(self).wf(),
            lit@.len() == old(self).map.width * old(self).map.height,
        ensures
            final(self).wf(),
            final(self).map == old(self).map,
            final(self).player == old(self).player,
            final(self).others == old(self).others,
            final(self).palette == old(self).palette,
            final(self).visibility.origin == Some((old(self).player.x, old(self).player.y)),
            final(self).visibility.lit@ == lit@,
            !final(self).fov_stale(),
    {
        let (x, y) = (self.player.x, self.player.y);
        self.visibility.record(x, y, lit);
    }

    /// Whether cell `(x, y)` is visible in the last result.
    pub fn is_in_fov(&self, x: i32, y: i32) -> (r: bool)
        requires
            self.wf(),
        ensures
            r == self.visibility.visible(x as int, y as int),
    {
        self.visibility.is_in_fov(x, y)
    }

    /// The background color of cell `(x, y)` on the player's layer.
    pub fn background_at(&self, x: i32, y: i32) -> (r: Rgb)
        requires
            self.wf(),
            0 <= x < self.map.width,
            0 <= y < self.map.height,
        ensures
            r == self.palette.color_spec(
                self.visibility.visible(x as int, y as int),
                self.map.tile(x as int, y as int, self.player.z as int).block_sight,
            ),
    {
        let visible = self.visibility.is_in_fov(x, y);
        let opaque = self.map.tile_at(x, y, self.player.z).block_sight;
        self.palette.cell_color(visible, opaque)
    }

    /// Whether the in-bounds cell `(x, y, z)` is impassable, by terrain or by
    /// any blocking entity there, the player included.
    pub fn blocked_at(&self, x: i32, y: i32, z: i32) -> (r: bool)
        requires
            self.wf(),
            self.map.in_bounds(x as int, y as int, z as int),
        ensures
            r == blocked_spec(self.map, self.entities(), x as int, y as int, z as int),
    {
        let by_others = is_blocked(x, y, z, &self.map, self.others.as_slice());
        let p = &self.player;
        let by_player = p.blocks && p.x == x && p.y == y && p.z == z;
        proof {
            let all = self.entities();
            assert(all[0] == self.player);
            assert forall|i: int| 0 <= i < self.others@.len() implies #[trigger] all[i + 1]
                == self.others@[i] by {}
            if occupied(self.others@, x as int, y as int, z as int) {
                let i = choose|i: int|
                    0 <= i < self.others@.len() && (#[trigger] self.others@[i]).blocks
                        && self.others@[i].x == x && self.others@[i].y == y
                        && self.others@[i].z == z;
                assert(all[i + 1] == self.others@[i]);
            }
            if occupied(all, x as int, y as int, z as int) {
                let i = choose|i: int|
                    0 <= i < all.len() && (#[trigger] all[i]).blocks && all[i].x == x && all[i].y
                        == y && all[i].z == z;
                if i > 0 {
                    assert(self.others@[i - 1] == all[i]);
                }
            }
        }
        by_others || by_player
    }
}

/// With a current field-of-view result, no command touches that result,
/// and a new one is called for exactly when the command changed the
/// player's `(x, y)`; so where it did not, every cell keeps its visibility.
pub proof fn lemma_fov_recompute_iff_moved(s: Session, a: Action)
    requires
        s.wf(),
        !s.fov_stale(),
    ensures
        s.after(a).visibility == s.visibility,
        s.after(a).fov_stale() <==> (s.after(a).player.x != s.player.x || s.after(a).player.y
            != s.player.y),
        !s.after(a).fov_stale() ==> forall|x: int, y: int|
            #[trigger] s.after(a).visibility.visible(x, y) == s.visibility.visible(x, y),
{
}

/// A move into a wall leaves the player where it was and keeps the last
/// field-of-view result current.
pub proof fn lemma_move_into_wall(s: Session, a: Action)
    requires
        s.wf(),
        is_move(a),
        s.map.in_bounds(
            s.player.x + delta(a).0,
            s.player.y + delta(a).1,
            s.player.z + delta(a).2,
        ),
        s.map.tile(
            s.player.x + delta(a).0,
            s.player.y + delta(a).1,
            s.player.z + delta(a).2,
        ).blocked,
    ensures
        s.after(a) == s,
        !s.fov_stale() ==> !s.after(a).fov_stale(),
{
}

} // verus!
