use vstd::prelude::*;

verus! {

/// A point on the integer plane.
#[derive(Clone, Copy, PartialEq, Eq, Structural, Debug)]
pub struct Point {
    pub x: i32,
    pub y: i32,
}

impl Point {
    /// The componentwise sum of two points, as adding a point to a point
    /// of the same type computes it.
    pub fn add(self, other: Point) -> (r: Point)
        requires
            i32::MIN <= self.x + other.x <= i32::MAX,
            i32::MIN <= self.y + other.y <= i32::MAX,
        ensures
            r.x == self.x + other.x,
            r.y == self.y + other.y,
    {
        Point { x: self.x + other.x, y: self.y + other.y }
    }
}

/// A length in millimeters, kept apart from plain numbers by its own type.
pub struct Millimeters(pub u32);

/// A length in meters.
pub struct Meters(pub u32);

impl Millimeters {
    /// Adds a length in meters to a length in millimeters: the mixed-type
    /// sum the addition trait's type parameter makes possible.
    pub fn add(self, other: Meters) -> (r: Millimeters)
        requires
            other.0 * 1000 + self.0 <= u32::MAX,
        ensures
            r.0 == self.0 + other.0 * 1000,
    {
        Millimeters(self.0 + other.0 * 1000)
    }
}

/// Checks that point addition sums componentwise on a concrete pair.
pub fn default_type_demo() {
    let sum = (Point { x: 1, y: 0 }).add(Point { x: 2, y: 3 });
    assert(sum == (Point { x: 3, y: 3 }));
}

} // verus!
