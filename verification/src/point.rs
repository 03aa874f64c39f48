use vstd::prelude::*;

verus! {

/// A point in the plane, with coordinates of type `C`.
#[derive(Clone, Copy, Debug, Default, PartialEq)]
pub struct Point<C> {
    pub x: C,
    pub y: C,
}

impl<C> Point<C> {
    /// The point with the given coordinates.
    pub fn new(x: C, y: C) -> (r: Point<C>)
        ensures
            r.x == x,
            r.y == y,
    {
        Point { x, y }
    }

    /// This point with its x coordinate replaced.
    pub fn with_x(self, x: C) -> (r: Point<C>)
        ensures
            r.x == x,
            r.y == self.y,
    {
        let mut p = self;
        p.x = x;
        p
    }

    /// This point with its y coordinate replaced.
    pub fn with_y(self, y: C) -> (r: Point<C>)
        ensures
            r.x == self.x,
            r.y == y,
    {
        let mut p = self;
        p.y = y;
        p
    }
}

} // verus!
