use vstd::prelude::*;

use crate::point::Point;

verus! {

/// An axis-aligned rectangle given by its minimum and maximum corners.
///
/// The corners are stored as given: no ordering between them is imposed.
#[derive(Clone, Copy, Debug, Default, PartialEq)]
pub struct Rect<C> {
    min: Point<C>,
    max: Point<C>,
}

impl<C> View for Rect<C> {
    /// The pair (minimum corner, maximum corner).
    type V = (Point<C>, Point<C>);

    closed spec fn view(&self) -> (Point<C>, Point<C>) {
        (self.min, self.max)
    }
}

impl<C> Rect<C> {
    /// The rectangle with the given corners.
    pub fn new(min: Point<C>, max: Point<C>) -> (r: Rect<C>)
        ensures
            r@ == (min, max),
    {
        Rect { min, max }
    }

    /// The minimum corner.
    pub fn min(self) -> (r: Point<C>)
        ensures
            r == self@.0,
    {
        self.min
    }

    /// The maximum corner.
    pub fn max(self) -> (r: Point<C>)
        ensures
            r == self@.1,
    {
        self.max
    }

    /// Replaces the minimum corner.
    pub fn set_min(&mut self, min: Point<C>)
        ensures
            final(self)@ == (min, old(self)@.1),
    {
        self.min = min;
    }

    /// Replaces the maximum corner.
    pub fn set_max(&mut self, max: Point<C>)
        ensures
            final(self)@ == (old(self)@.0, max),
    {
        self.max = max;
    }

    /// This rectangle with its minimum corner replaced.
    pub fn with_min(self, min: Point<C>) -> (r: Rect<C>)
        ensures
            r@ == (min, self@.1),
    {
        let mut r = self;
        r.set_min(min);
        r
    }

    /// This rectangle with its maximum corner replaced.
    pub fn with_max(self, max: Point<C>) -> (r: Rect<C>)
        ensures
            r@ == (self@.0, max),
    {
        let mut r = self;
        r.set_max(max);
        r
    }
}

} // verus!
