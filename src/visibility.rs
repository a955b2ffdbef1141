use vstd::prelude::*;
use crate::grid::MAX_CELLS;

verus! {

/// The last field-of-view result: the viewpoint it was computed from, if any,
/// and one flag per cell of a `width` by `height` plane, row by row.
pub struct Visibility {
    pub width: i32,
    pub height: i32,
    pub origin: Option<(i32, i32)>,
    pub lit: Vec<bool>,
}

impl Visibility {
    pub open spec fn wf(&self) -> bool {
        &&& 0 < self.width
        &&& 0 < self.height
        &&& self.width * self.height <= MAX_CELLS
        &&& self.lit@.len() == self.width * self.height
    }

    /// Cell `(x, y)` is visible in the last result; nothing is visible before
    /// the first one, nor outside the plane.
    pub open spec fn visible(&self, x: int, y: int) -> bool {
        &&& self.origin is Some
        &&& 0 <= x < self.width
        &&& 0 <= y < self.height
        &&& self.lit@[x + self.width * y]
    }

    /// A result computed at `(x, y)` would differ in key from the last one.
    pub open spec fn stale_at(&self, x: int, y: int) -> bool {
        !(self.origin matches Some(p) && p.0 == x && p.1 == y)
    }

    /// No result yet, for a plane of the given extents.
    pub fn new(width: i32, height: i32) -> (r: Visibility)
        requires
            0 < width,
            0 < height,
            width * height <= MAX_CELLS,
        ensures
            r.wf(),
            r.width == width,
            r.height == height,
            r.origin is None,
    {
        let count: i32 = width * height;
        let mut lit: Vec<bool> = Vec::new();
        let mut k: i32 = 0;
        while k < count
            invariant
                0 <= k <= count,
                lit@.len() == k,
            decreases count - k,
        {
            lit.push(false);
            k = k + 1;
        }
        Visibility { width, height, origin: None, lit }
    }

    /// Whether a viewpoint at `(x, y)` calls for a new result.
    pub fn needs_recompute(&self, x: i32, y: i32) -> (r: bool)
        ensures
            r == self.stale_at(x as int, y as int),
    {
        match self.origin {
            Some((ox, oy)) => !(ox == x && oy == y),
            None => true,
        }
    }

    /// Keep `lit`, computed from the viewpoint `(x, y)`, as the current result.
    pub fn record(&mut self, x: i32, y: i32, lit: Vec<bool>)
        requires
            old(self).wf(),
            lit@.len() == old(self).width * old(self).height,
        ensures
            final(self).wf(),
            final(self).width == old(self).width,
            final(self).height == old(self).height,
            final(self).origin == Some((x, y)),
            final(self).lit@ == lit@,
    {
        self.origin = Some((x, y));
        self.lit = lit;
    }

    /// Whether cell `(x, y)` is visible in the last result.
    pub fn is_in_fov(&self, x: i32, y: i32) -> (r: bool)
        requires
            self.wf(),
        ensures
            r == self.visible(x as int, y as int),
    {
        if self.origin.is_none() || x < 0 || x >= self.width || y < 0 || y >= self.height {
            return false;
        }
        proof {
            assert(0 <= x + self.width * y < self.width * self.height) by (nonlinear_arith)
                requires 0 <= x < self.width, 0 <= y < self.height;
        }
        let i: i32 = x + self.width * y;
        self.lit[i as usize]
    }
}

} // verus!
