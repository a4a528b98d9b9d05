//! Plain integer vectors for map positions and action targets.

use vstd::prelude::*;

verus! {

/// A two-dimensional integer position.
#[derive(Debug, Default, Clone, Copy, PartialEq, Eq, Hash, Structural)]
pub struct Point2 {
    pub x: i32,
    pub y: i32,
}

impl Point2 {
    pub fn new(x: i32, y: i32) -> (r: Point2)
        ensures
            r.x == x,
            r.y == y,
    {
        Point2 { x, y }
    }
}

/// A three-dimensional integer position.
#[derive(Debug, Default, Clone, Copy, PartialEq, Eq, Hash, Structural)]
pub struct Point3 {
    pub x: i32,
    pub y: i32,
    pub z: i32,
}

impl Point3 {
    pub fn new(x: i32, y: i32, z: i32) -> (r: Point3)
        ensures
            r.x == x,
            r.y == y,
            r.z == z,
    {
        Point3 { x, y, z }
    }
}

} // verus!
