//! The floor of blocks that a new world starts with.

use vstd::prelude::*;
use crate::vector::{Point, Vector3, HALF_UNIT, UNIT};

verus! {

/// The number of rows and of columns of the starting floor, less one.
pub const CHUNK_SIZE: i16 = 64;

/// The floor reaches this many rows and columns to either side of the
/// middle one.
pub const CHUNK_SIZE_HALF: i16 = 32;

/// Where the block in row `x` and column `z` of the starting floor is
/// centred: the blocks lie two grid units apart, half a grid unit above
/// the ground.
pub open spec fn floor_position(x: int, z: int) -> Point {
    Point { x: x * (2 * UNIT) + HALF_UNIT, y: HALF_UNIT as int, z: z * (2 * UNIT) + HALF_UNIT }
}

/// The centres of the blocks of the starting floor, row by row: rows and
/// columns both run from `-CHUNK_SIZE_HALF` to `CHUNK_SIZE_HALF`.
pub fn floor_positions() -> (positions: Vec<Vector3>)
    ensures
        positions.len() == (CHUNK_SIZE + 1) * (CHUNK_SIZE + 1),
        forall|i: int|
            0 <= i < positions.len() ==> (#[trigger] positions[i])@ == floor_position(
                i / (CHUNK_SIZE + 1) - CHUNK_SIZE_HALF,
                i % (CHUNK_SIZE + 1) - CHUNK_SIZE_HALF,
            ),
{
    let mut positions: Vec<Vector3> = Vec::new();
    let mut x: i16 = -CHUNK_SIZE_HALF;
    while x <= CHUNK_SIZE_HALF
        invariant
            -32 <= x <= 33,
            CHUNK_SIZE == 64,
            CHUNK_SIZE_HALF == 32,
            positions.len() == (x + 32) * 65,
            forall|i: int|
                0 <= i < positions.len() ==> (#[trigger] positions[i])@ == floor_position(
                    i / 65 - 32,
                    i % 65 - 32,
                ),
        decreases 33 - x,
    {
        let mut z: i16 = -CHUNK_SIZE_HALF;
        while z <= CHUNK_SIZE_HALF
            invariant
                -32 <= x <= 32,
                -32 <= z <= 33,
                CHUNK_SIZE_HALF == 32,
                positions.len() == (x + 32) * 65 + (z + 32),
                forall|i: int|
                    0 <= i < positions.len() ==> (#[trigger] positions[i])@ == floor_position(
                        i / 65 - 32,
                        i % 65 - 32,
                    ),
            decreases 33 - z,
        {
            let ghost before = positions@;
            let step: i64 = 2 * UNIT;
            assert(step == 20_000);
            positions.push(
                Vector3::new((x as i64) * step + HALF_UNIT, HALF_UNIT, (z as i64) * step + HALF_UNIT),
            );
            proof {
                let n: int = before.len() as int;
                assert(n / 65 == x + 32 && n % 65 == z + 32);
                assert forall|i: int| 0 <= i < positions.len() implies (
                #[trigger] positions[i])@ == floor_position(i / 65 - 32, i % 65 - 32) by {
                    if i < n {
                        assert(positions[i] == before[i]);
                    }
                }
            }
            z += 1;
        }
        x += 1;
    }
    positions
}

} // verus!
