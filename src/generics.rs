//! Points with fixed and generic coordinate types, and shifting a point.
use vstd::prelude::*;

verus! {

/// A point with integer coordinates.
pub struct Point {
    pub x: i32,
    pub y: i32,
}

/// A point whose coordinates may be of any one type.
pub struct GenericPoint<T> {
    pub x: T,
    pub y: T,
}

/// A point whose coordinate type can be copied.
#[derive(PartialEq, Eq, Structural, Clone, Copy)]
pub struct GenericPoint2<T: Copy> {
    pub x: T,
    pub y: T,
}

impl GenericPoint2<i32> {
    /// Moves the point by `(x, y)` with `+=`.
    pub fn shift_point_addassign(&mut self, x: i32, y: i32)
        requires
            i32::MIN <= old(self).x + x <= i32::MAX,
            i32::MIN <= old(self).y + y <= i32::MAX,
        ensures
            final(self).x == old(self).x + x,
            final(self).y == old(self).y + y,
    {
        self.x += x;
        self.y += y;
    }

    /// Moves the point by `(x, y)` with `+`.
    pub fn shift_point_add(&mut self, x: i32, y: i32)
        requires
            i32::MIN <= old(self).x + x <= i32::MAX,
            i32::MIN <= old(self).y + y <= i32::MAX,
        ensures
            final(self).x == old(self).x + x,
            final(self).y == old(self).y + y,
    {
        self.x = self.x + x;
        self.y = self.y + y;
    }

    /// Moves the point by another point's coordinates.
    pub fn add_assign(&mut self, other: Self)
        requires
            i32::MIN <= old(self).x + other.x <= i32::MAX,
            i32::MIN <= old(self).y + other.y <= i32::MAX,
        ensures
            final(self).x == old(self).x + other.x,
            final(self).y == old(self).y + other.y,
    {
        self.x += other.x;
        self.y += other.y;
    }
}

} // verus!
