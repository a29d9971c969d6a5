//! Exact ray picking for a world of unit cubes.
//!
//! A ray is cast at a set of blocks. The library finds the block that the
//! ray strikes first and the face it strikes, and turns a press of a button
//! into a decision: insert a block against that face, delete the block that
//! was hit, or do nothing.
//!
//! Positions are whole numbers of ticks, ten thousand to the grid unit, and
//! ray parameters are exact fractions, so every comparison made while
//! picking is decided without rounding. A ray's parameter counts multiples
//! of its direction: it is a distance in grid units where the direction is
//! one grid unit long.
//!
//! The conventions, each of them stated in the contracts:
//!
//! - Boxes are closed. A ray that only touches a face, an edge or a corner
//!   hits the box, and a ray that runs along an axis without moving on
//!   another is between the faces of that other axis if it lies on or
//!   between them.
//! - A ray that starts strictly inside a box does not hit that box.
//! - Where the point of entry is on faces of more than one axis, the face
//!   of x is taken before that of y, and that of y before that of z.
//! - Of several blocks struck at the same parameter, the one that stands
//!   first in the sequence of blocks is taken, and a block struck exactly
//!   at the search radius is not.
//! - A new block is placed by rounding up: each coordinate of the hit point
//!   is rounded up to a whole grid coordinate, the cell below it is taken,
//!   and the block goes one cell along the normal of the face that was hit.

pub mod error;
pub mod fraction;
pub mod geometry;
pub mod intersect;
pub mod intersect_proofs;
pub mod picker;
pub mod picker_proofs;
pub mod placement;
pub mod vector;
pub mod world;
