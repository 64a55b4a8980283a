//! Basic geometric types of the game world.

use vstd::prelude::*;

verus! {

/// A tile position in the world.
#[derive(Debug, Clone, Copy, PartialEq, Eq, Structural)]
pub struct Point {
    /// Column.
    pub x: i32,
    /// Row.
    pub y: i32,
}

impl Point {
    /// The point `(x, y)`.
    pub fn new(x: i32, y: i32) -> (p: Self)
        ensures
            p.x == x && p.y == y,
    {
        Point { x, y }
    }
}

} // verus!
