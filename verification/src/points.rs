//! Points over arbitrary coordinate types.

use vstd::prelude::*;

verus! {

/// A point whose two coordinates share one type.
pub struct Point<T> {
    pub x: T,
    pub y: T,
}

impl<T> Point<T> {
    /// A view of the first coordinate.
    pub fn x(&self) -> (r: &T)
        ensures
            r == self.x,
    {
        &self.x
    }
}

/// A point whose two coordinates may differ in type.
pub struct Point2<X1, Y1> {
    pub x: X1,
    pub y: Y1,
}

impl<X1, Y1> Point2<X1, Y1> {
    /// A new point from this point's first coordinate and the other
    /// point's second.
    pub fn mixup<X2, Y2>(self, other: Point2<X2, Y2>) -> (r: Point2<X1, Y2>)
        ensures
            r.x == self.x,
            r.y == other.y,
    {
        Point2 { x: self.x, y: other.y }
    }
}

} // verus!
