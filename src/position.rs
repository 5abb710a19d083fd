use vstd::prelude::*;
use crate::resolution::Resolution;

verus! {

/// Whether `v` is a value of `i32`.
pub open spec fn fits_i32(v: int) -> bool {
    i32::MIN <= v <= i32::MAX
}

/// Coordinates of the printing element on the paper, in micro-units.
///
/// The upper left corner of the sheet is the origin; `x` grows to the right
/// and `y` grows downwards.
#[derive(PartialEq, Eq, Structural, Debug, Clone, Copy)]
pub struct Position {
    pub x: i32,
    pub y: i32,
}

impl Default for Position {
    fn default() -> (r: Self)
        ensures
            r == (Position { x: 0, y: 0 }),
    {
        Position { x: 0, y: 0 }
    }
}

impl Position {
    /// The position after a carriage return: the home column of `base`, one line further down.
    pub open spec fn spec_cr(self, base: Position, res: Resolution) -> Position {
        Position { x: base.x, y: (self.y + res.y) as i32 }
    }

    /// The position after returning to `base`'s column and feeding `ratio` lines.
    pub open spec fn spec_cr_multiple(self, base: Position, ratio: int, res: Resolution) -> Position {
        Position { x: base.x, y: (self.y + res.y * ratio) as i32 }
    }

    /// The position `ratio` columns further right.
    pub open spec fn spec_increment_x(self, ratio: int, res: Resolution) -> Position {
        Position { x: (self.x + res.x * ratio) as i32, y: self.y }
    }

    /// The position `ratio` columns further left.
    pub open spec fn spec_decrement_x(self, ratio: int, res: Resolution) -> Position {
        Position { x: (self.x - res.x * ratio) as i32, y: self.y }
    }

    /// Move to `new_pos`.
    pub fn jump(&mut self, new_pos: &Position)
        ensures
            *final(self) == *new_pos,
    {
        self.x = new_pos.x;
        self.y = new_pos.y;
    }

    /// The offset `(dx, dy)` from `base` to `self`.
    pub fn diff(&self, base: &Position) -> (r: (i32, i32))
        requires
            fits_i32(self.x - base.x),
            fits_i32(self.y - base.y),
        ensures
            r.0 == self.x - base.x,
            r.1 == self.y - base.y,
    {
        (self.x - base.x, self.y - base.y)
    }

    /// One column to the right.
    pub fn step_right(&self, res: Resolution) -> (r: Position)
        requires
            fits_i32(self.x + res.x),
        ensures
            r == self.spec_increment_x(1, res),
    {
        let mut pos = *self;
        pos.x = self.x + res.x;
        pos
    }

    /// One column to the left.
    pub fn step_left(&self, res: Resolution) -> (r: Position)
        requires
            fits_i32(self.x - res.x),
        ensures
            r == self.spec_decrement_x(1, res),
    {
        let mut pos = *self;
        pos.x = self.x - res.x;
        pos
    }

    /// Carriage return: back to the column of `base`, one line down.
    pub fn cr(&self, base: &Position, res: Resolution) -> (r: Position)
        requires
            fits_i32(self.y + res.y),
        ensures
            r == self.spec_cr(*base, res),
    {
        let mut pos = *base;
        pos.y = self.y + res.y;
        pos
    }

    /// Carriage return over `ratio` lines at once.
    pub fn cr_multiple(&self, base: &Position, ratio: i32, res: Resolution) -> (r: Position)
        requires
            fits_i32(res.y * ratio),
            fits_i32(self.y + res.y * ratio),
        ensures
            r == self.spec_cr_multiple(*base, ratio as int, res),
    {
        let mut pos = *base;
        pos.y = self.y + (res.y * ratio);
        pos
    }

    /// Line feed: one line down, same column.
    pub fn newline(&self, res: Resolution) -> (r: Position)
        requires
            fits_i32(self.y + res.y),
        ensures
            r == (Position { x: self.x, y: (self.y + res.y) as i32 }),
    {
        let mut pos = *self;
        pos.y = self.y + res.y;
        pos
    }

    /// `ratio` columns to the right.
    pub fn increment_x(&self, ratio: i32, res: Resolution) -> (r: Position)
        requires
            fits_i32(res.x * ratio),
            fits_i32(self.x + res.x * ratio),
        ensures
            r == self.spec_increment_x(ratio as int, res),
    {
        let mut pos = *self;
        pos.x = self.x + (res.x * ratio);
        pos
    }

    /// `ratio` columns to the left.
    pub fn decrement_x(&self, ratio: i32, res: Resolution) -> (r: Position)
        requires
            fits_i32(res.x * ratio),
            fits_i32(self.x - res.x * ratio),
        ensures
            r == self.spec_decrement_x(ratio as int, res),
    {
        let mut pos = *self;
        pos.x = self.x - (res.x * ratio);
        pos
    }
}

/// A carriage return lands on the column of the base and exactly one line below.
pub proof fn lemma_cr_lands_on_base_column(p: Position, base: Position, res: Resolution)
    requires
        fits_i32(p.y + res.y),
    ensures
        p.spec_cr(base, res).y - p.y == res.y,
        p.spec_cr(base, res).x == base.x,
{
}

} // verus!
