//! Lattice vectors and the units they are measured in.

use vstd::prelude::*;

verus! {

/// Ticks in one grid unit: the edge of a block.
pub const UNIT: i64 = 10_000;

/// Ticks in half a grid unit: from a block's centre to each of its faces.
pub const HALF_UNIT: i64 = 5_000;

/// How close, in ticks, a point must lie to a face to count as on it.
pub const EPSILON: i64 = 1;

/// Largest magnitude, in ticks, of any coordinate that picking accepts.
pub const WORLD_LIMIT: i64 = 1_000_000_000_000;

/// One of the three coordinate axes.
#[derive(Clone, Copy, Debug, PartialEq, Eq, Structural)]
pub enum Axis {
    X,
    Y,
    Z,
}

/// A point or displacement with unbounded whole coordinates: the
/// mathematical value of a [`Vector3`].
pub struct Point {
    pub x: int,
    pub y: int,
    pub z: int,
}

impl Point {
    /// The coordinate along `axis`.
    pub open spec fn get(self, axis: Axis) -> int {
        match axis {
            Axis::X => self.x,
            Axis::Y => self.y,
            Axis::Z => self.z,
        }
    }

    /// Every coordinate is at most `limit` in magnitude.
    pub open spec fn within(self, limit: int) -> bool {
        &&& -limit <= self.x <= limit
        &&& -limit <= self.y <= limit
        &&& -limit <= self.z <= limit
    }

    /// The displacement of length zero.
    pub open spec fn is_zero(self) -> bool {
        self.x == 0 && self.y == 0 && self.z == 0
    }

    /// The sum of two displacements.
    pub open spec fn plus(self, other: Point) -> Point {
        Point { x: self.x + other.x, y: self.y + other.y, z: self.z + other.z }
    }

    /// The point moved by `amount` ticks along every axis.
    pub open spec fn shifted(self, amount: int) -> Point {
        Point { x: self.x + amount, y: self.y + amount, z: self.z + amount }
    }
}

/// A position, direction or normal, in ticks along each axis.
#[derive(Clone, Copy, Debug, PartialEq, Eq, Structural)]
pub struct Vector3 {
    pub x: i64,
    pub y: i64,
    pub z: i64,
}

impl View for Vector3 {
    type V = Point;

    open spec fn view(&self) -> Point {
        Point { x: self.x as int, y: self.y as int, z: self.z as int }
    }
}

impl Vector3 {
    /// The vector with the given coordinates, in ticks.
    pub fn new(x: i64, y: i64, z: i64) -> (v: Vector3)
        ensures
            v@ == (Point { x: x as int, y: y as int, z: z as int }),
    {
        Vector3 { x, y, z }
    }

    /// The coordinate along `axis`.
    pub fn get(&self, axis: Axis) -> (c: i64)
        ensures
            c == self@.get(axis),
    {
        match axis {
            Axis::X => self.x,
            Axis::Y => self.y,
            Axis::Z => self.z,
        }
    }

    /// Whether every coordinate is at most [`WORLD_LIMIT`] in magnitude.
    pub fn in_world(&self) -> (b: bool)
        ensures
            b == self@.within(WORLD_LIMIT as int),
    {
        -WORLD_LIMIT <= self.x && self.x <= WORLD_LIMIT && -WORLD_LIMIT <= self.y && self.y
            <= WORLD_LIMIT && -WORLD_LIMIT <= self.z && self.z <= WORLD_LIMIT
    }

    /// Whether this is the zero vector.
    pub fn is_zero(&self) -> (b: bool)
        ensures
            b == self@.is_zero(),
    {
        self.x == 0 && self.y == 0 && self.z == 0
    }
}

} // verus!
