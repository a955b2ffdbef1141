use vstd::prelude::*;

verus! {

/// A display color.
#[derive(Clone, Copy, Debug, PartialEq, Eq, Structural)]
pub struct Rgb {
    pub r: u8,
    pub g: u8,
    pub b: u8,
}

/// The four background colors, one for each combination of visible and
/// opaque.
#[derive(Clone, Copy, Debug, PartialEq, Eq, Structural)]
pub struct Palette {
    pub dark_wall: Rgb,
    pub dark_ground: Rgb,
    pub light_wall: Rgb,
    pub light_ground: Rgb,
}

impl Palette {
    /// The color of a cell that is or is not visible and is or is not opaque.
    pub open spec fn color_spec(&self, visible: bool, opaque: bool) -> Rgb {
        if visible {
            if opaque { self.light_wall } else { self.light_ground }
        } else {
            if opaque { self.dark_wall } else { self.dark_ground }
        }
    }

    /// The standard palette.
    pub fn standard() -> (r: Palette)
        ensures
            r.dark_wall == (Rgb { r: 100, g: 0, b: 0 }),
            r.light_wall == (Rgb { r: 130, g: 110, b: 50 }),
            r.dark_ground == (Rgb { r: 50, g: 50, b: 150 }),
            r.light_ground == (Rgb { r: 200, g: 180, b: 50 }),
    {
        Palette {
            dark_wall: Rgb { r: 100, g: 0, b: 0 },
            dark_ground: Rgb { r: 50, g: 50, b: 150 },
            light_wall: Rgb { r: 130, g: 110, b: 50 },
            light_ground: Rgb { r: 200, g: 180, b: 50 },
        }
    }

    /// The background color of a cell.
    pub fn cell_color(&self, visible: bool, opaque: bool) -> (r: Rgb)
        ensures
            r == self.color_spec(visible, opaque),
    {
        match (visible, opaque) {
            (false, true) => self.dark_wall,
            (false, false) => self.dark_ground,
            (true, true) => self.light_wall,
            (true, false) => self.light_ground,
        }
    }
}

/// White, the player's color.
pub fn white() -> (r: Rgb)
    ensures
        r == (Rgb { r: 255, g: 255, b: 255 }),
{
    Rgb { r: 255, g: 255, b: 255 }
}

/// Yellow, the color of the other occupant.
pub fn yellow() -> (r: Rgb)
    ensures
        r == (Rgb { r: 255, g: 255, b: 0 }),
{
    Rgb { r: 255, g: 255, b: 0 }
}

} // verus!
