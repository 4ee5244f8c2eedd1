use vstd::prelude::*;

verus! {

/// A two-dimensional coordinate with integer ordinates.
#[derive(Clone, Copy, Debug, PartialEq, Eq, Structural)]
pub struct Coord {
    pub x: i64,
    pub y: i64,
}

/// A line segment from `start` to `end`.
#[derive(Clone, Copy, Debug, PartialEq, Eq, Structural)]
pub struct Line {
    pub start: Coord,
    pub end: Coord,
}

/// The mathematical value of a `usize` index.
pub open spec fn index_value(i: usize) -> int {
    i as int
}

/// The mathematical value of an `i64` ordinate.
pub open spec fn ordinate_value(v: i64) -> int {
    v as int
}

impl Coord {
    /// Builds a coordinate from its two ordinates.
    pub fn new(x: i64, y: i64) -> (c: Coord)
        ensures
            c.x == x,
            c.y == y,
    {
        Coord { x, y }
    }
}

impl Line {
    /// Builds a segment from its two end points.
    pub fn new(start: Coord, end: Coord) -> (l: Line)
        ensures
            l.start == start,
            l.end == end,
    {
        Line { start, end }
    }
}

} // verus!
