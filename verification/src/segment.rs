use vstd::prelude::*;

use crate::point::Point;

verus! {

/// A line segment joining two vertices, `a` and `b`.
#[derive(Clone, Copy, Debug, Default, PartialEq)]
pub struct Segment<C> {
    a: Point<C>,
    b: Point<C>,
}

impl<C> View for Segment<C> {
    /// The pair (first vertex, second vertex).
    type V = (Point<C>, Point<C>);

    closed spec fn view(&self) -> (Point<C>, Point<C>) {
        (self.a, self.b)
    }
}

impl<C> Segment<C> {
    /// The segment from `a` to `b`.
    pub fn new(a: Point<C>, b: Point<C>) -> (r: Segment<C>)
        ensures
            r@ == (a, b),
    {
        Segment { a, b }
    }

    /// The first vertex.
    pub fn a(self) -> (r: Point<C>)
        ensures
            r == self@.0,
    {
        self.a
    }

    /// The second vertex.
    pub fn b(self) -> (r: Point<C>)
        ensures
            r == self@.1,
    {
        self.b
    }

    /// Replaces the first vertex.
    pub fn set_a(&mut self, a: Point<C>)
        ensures
            final(self)@ == (a, old(self)@.1),
    {
        self.a = a;
    }

    /// Replaces the second vertex.
    pub fn set_b(&mut self, b: Point<C>)
        ensures
            final(self)@ == (old(self)@.0, b),
    {
        self.b = b;
    }

    /// This segment with its first vertex replaced.
    pub fn with_a(self, a: Point<C>) -> (r: Segment<C>)
        ensures
            r@ == (a, self@.1),
    {
        let mut s = self;
        s.set_a(a);
        s
    }

    /// This segment with its second vertex replaced.
    pub fn with_b(self, b: Point<C>) -> (r: Segment<C>)
        ensures
            r@ == (self@.0, b),
    {
        let mut s = self;
        s.set_b(b);
        s
    }
}

} // verus!
