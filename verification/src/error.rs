//! The ways in which an input to picking can be refused.

use vstd::prelude::*;

verus! {

/// Why a ray, a box, a block or a search radius was refused.
#[derive(Clone, Copy, Debug, PartialEq, Eq, Structural)]
pub enum PickError {
    /// The ray's direction is the zero vector.
    ZeroDirection,
    /// A coordinate exceeds the world's limit.
    OutOfWorld,
    /// A box's lower corner lies above its upper corner on some axis.
    InvertedBox,
    /// The search radius is zero or negative.
    InvalidMaxDistance,
}

} // verus!
