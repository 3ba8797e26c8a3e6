use vstd::prelude::*;

verus! {

/// A position, in whole device units.
#[derive(Clone, Copy, Debug, PartialEq, Eq, Structural)]
pub struct Point {
    pub x: i64,
    pub y: i64,
}

/// An offset between two positions.
#[derive(Clone, Copy, Debug, PartialEq, Eq, Structural)]
pub struct Vec2 {
    pub x: i64,
    pub y: i64,
}

/// An axis-aligned rectangle from corner `(x0, y0)` to corner `(x1, y1)`.
#[derive(Clone, Copy, Debug, PartialEq, Eq, Structural)]
pub struct Rect {
    pub x0: i64,
    pub y0: i64,
    pub x1: i64,
    pub y1: i64,
}

/// `v` fits in an `i64`.
pub open spec fn fits(v: int) -> bool {
    i64::MIN <= v <= i64::MAX
}

impl Point {
    pub fn new(x: i64, y: i64) -> (r: Point)
        ensures
            r.x == x,
            r.y == y,
    {
        Point { x, y }
    }

    /// The offset from the origin to this point.
    pub fn to_vec2(self) -> (r: Vec2)
        ensures
            r.x == self.x,
            r.y == self.y,
    {
        Vec2 { x: self.x, y: self.y }
    }

    /// This point moved by `v`.
    pub fn plus(self, v: Vec2) -> (r: Point)
        requires
            fits(self.x + v.x),
            fits(self.y + v.y),
        ensures
            r.x == self.x + v.x,
            r.y == self.y + v.y,
    {
        Point { x: self.x + v.x, y: self.y + v.y }
    }

    /// This point moved back by `v`.
    pub fn minus(self, v: Vec2) -> (r: Point)
        requires
            fits(self.x - v.x),
            fits(self.y - v.y),
        ensures
            r.x == self.x - v.x,
            r.y == self.y - v.y,
    {
        Point { x: self.x - v.x, y: self.y - v.y }
    }
}

impl Vec2 {
    pub fn new(x: i64, y: i64) -> (r: Vec2)
        ensures
            r.x == x,
            r.y == y,
    {
        Vec2 { x, y }
    }

    /// The sum of two offsets.
    pub fn plus(self, v: Vec2) -> (r: Vec2)
        requires
            fits(self.x + v.x),
            fits(self.y + v.y),
        ensures
            r.x == self.x + v.x,
            r.y == self.y + v.y,
    {
        Vec2 { x: self.x + v.x, y: self.y + v.y }
    }
}

impl Rect {
    pub fn new(x0: i64, y0: i64, x1: i64, y1: i64) -> (r: Rect)
        ensures
            r == (Rect { x0, y0, x1, y1 }),
    {
        Rect { x0, y0, x1, y1 }
    }

    /// This rectangle moved back by `v`.
    pub fn minus(self, v: Vec2) -> (r: Rect)
        requires
            fits(self.x0 - v.x),
            fits(self.y0 - v.y),
            fits(self.x1 - v.x),
            fits(self.y1 - v.y),
        ensures
            r.x0 == self.x0 - v.x,
            r.y0 == self.y0 - v.y,
            r.x1 == self.x1 - v.x,
            r.y1 == self.y1 - v.y,
    {
        Rect { x0: self.x0 - v.x, y0: self.y0 - v.y, x1: self.x1 - v.x, y1: self.y1 - v.y }
    }
}

} // verus!
