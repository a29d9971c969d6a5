//! From a hit to a decision: where a new block goes, or which block is
//! removed.
//!
//! Blocks are placed on a grid whose cells are the unit cubes between whole
//! grid coordinates, so that a placed block's centre has a half-integer
//! coordinate on every axis. The cell is found by rounding each coordinate
//! of the hit point up to a whole grid coordinate, taking the cell below
//! it, and moving one cell along the normal of the face that was hit.

use vstd::prelude::*;
use crate::error::PickError;
use crate::fraction::{
    ceil_quotient, lemma_ceil_is_least_upper, lemma_ceil_within_numerator, lemma_product_bounded,
    Fraction, Ratio,
};
use crate::geometry::{Cuboid, Line, Ray};
use crate::picker::{find_nearest_hit, nearest, Block, BlockId, HitRecord};
use crate::vector::{Point, Vector3, HALF_UNIT, UNIT, WORLD_LIMIT};

verus! {

/// What the user asks for with a press of a button.
#[derive(Clone, Copy, Debug, PartialEq, Eq, Structural)]
pub enum Action {
    /// Put a new block against the face that the ray hits.
    Place,
    /// Take away the block that the ray hits.
    Remove,
}

/// What is to be done to the world after a press of a button.
#[derive(Clone, Copy, Debug, PartialEq, Eq, Structural)]
pub enum Outcome {
    /// Add a block centred at this position.
    Insert(Vector3),
    /// Remove the block of this name.
    Delete(BlockId),
    /// Leave the world as it is.
    NoAction,
}

/// The action that two buttons ask for, each given by whether it has just
/// been pressed: the primary button places, the secondary removes, and the
/// primary wins where both were pressed.
pub fn select_action(primary_pressed: bool, secondary_pressed: bool) -> (a: Option<Action>)
    ensures
        a == (if primary_pressed {
            Some(Action::Place)
        } else if secondary_pressed {
            Some(Action::Remove)
        } else {
            None
        }),
{
    if primary_pressed {
        Some(Action::Place)
    } else if secondary_pressed {
        Some(Action::Remove)
    } else {
        None
    }
}

/// A whole number stays as it is, and any other number is rounded up to
/// the next whole number.
pub fn smart_round(v: Fraction) -> (k: i64)
    ensures
        k == v@.ceil(),
        (k - 1) * v@.den < v@.num <= k * v@.den,
{
    let num: i64 = v.num();
    let den: i64 = v.den();
    let k: i128 = ceil_quotient(num as i128, den as i128);
    proof {
        lemma_ceil_is_least_upper(v@, 0);
        lemma_ceil_within_numerator(v@);
    }
    k as i64
}

/// One coordinate of the ray's point at `t`, in grid units.
pub open spec fn hit_coordinate(o: int, d: int, t: Ratio) -> Ratio {
    Ratio { num: o * t.den + d * t.num, den: t.den * UNIT }
}

/// One coordinate, in ticks, of the centre of the cell below the hit
/// point's coordinate rounded up.
pub open spec fn snapped(o: int, d: int, t: Ratio) -> int {
    hit_coordinate(o, d, t).ceil() * UNIT - HALF_UNIT
}

/// The cell that a coordinate of the hit point is snapped to holds that
/// coordinate: the hit point lies above the cell's lower face, and on or
/// below its upper face.
pub proof fn lemma_snapped_cell_holds_coordinate(o: int, d: int, t: Ratio)
    requires
        t.valid(),
    ensures
        (snapped(o, d, t) - HALF_UNIT) * t.den < o * t.den + d * t.num <= (snapped(o, d, t)
            + HALF_UNIT) * t.den,
{
    let r = hit_coordinate(o, d, t);
    let k = r.ceil();
    let q = t.den;
    assert(r.den == q * 10_000);
    lemma_ceil_is_least_upper(r, 0);
    assert(snapped(o, d, t) == k * 10_000 - 5_000);
    assert((k * 10_000 - 10_000) * q == (k - 1) * (q * 10_000)) by (nonlinear_arith);
    assert((k * 10_000) * q == k * (q * 10_000)) by (nonlinear_arith);
}

/// The centre of the block that is placed against the face with `normal`
/// when the ray hits it at `t`.
pub open spec fn placement(line: Line, t: Ratio, normal: Point) -> Point {
    Point {
        x: snapped(line.origin.x, line.direction.x, t) + normal.x,
        y: snapped(line.origin.y, line.direction.y, t) + normal.y,
        z: snapped(line.origin.z, line.direction.z, t) + normal.z,
    }
}

/// A coordinate at which a block fits inside the world.
spec fn fits(c: int) -> bool {
    -WORLD_LIMIT <= c - HALF_UNIT && c + HALF_UNIT <= WORLD_LIMIT
}

/// One coordinate of the placed block's centre, if a block fits the world
/// there.
fn place_along(o: i64, d: i64, t: &Fraction, normal: i64) -> (c: Option<i64>)
    requires
        -WORLD_LIMIT <= o <= WORLD_LIMIT,
        -WORLD_LIMIT <= d <= WORLD_LIMIT,
    ensures
        match c {
            Some(v) => v == snapped(o as int, d as int, t@) + normal && fits(v as int),
            None => !fits(snapped(o as int, d as int, t@) + normal),
        },
{
    let tn: i128 = t.num() as i128;
    let td: i128 = t.den() as i128;
    proof {
        lemma_product_bounded(o as int, td as int, WORLD_LIMIT as int, 0x8000_0000_0000_0000);
        lemma_product_bounded(d as int, tn as int, WORLD_LIMIT as int, 0x8000_0000_0000_0000);
        assert(td * UNIT == td * 10_000);
    }
    let num: i128 = (o as i128) * td + (d as i128) * tn;
    let den: i128 = td * (UNIT as i128);
    let cell: i128 = ceil_quotient(num, den);
    proof {
        lemma_ceil_within_numerator(hit_coordinate(o as int, d as int, t@));
        assert(cell * UNIT == cell * 10_000);
    }
    let centre: i128 = cell * (UNIT as i128) - (HALF_UNIT as i128) + (normal as i128);
    if -(WORLD_LIMIT as i128) <= centre - (HALF_UNIT as i128) && centre + (HALF_UNIT as i128) <= (
    WORLD_LIMIT as i128) {
        Some(centre as i64)
    } else {
        None
    }
}

/// Where the new block goes when `ray` has hit a block as `hit` records:
/// one cell along the normal from the cell of the hit point. `None` where
/// a block there would not be inside the world.
pub fn placement_position(ray: &Ray, hit: &HitRecord) -> (p: Option<Vector3>)
    ensures
        match p {
            Some(v) => v@ == placement(ray@, hit.distance@, hit.normal@) && Cuboid::unit_cube(
                v@,
            ).in_world(),
            None => !Cuboid::unit_cube(placement(ray@, hit.distance@, hit.normal@)).in_world(),
        },
{
    proof {
        use_type_invariant(ray);
    }
    let o = ray.origin();
    let d = ray.direction();
    let x = place_along(o.x, d.x, &hit.distance, hit.normal.x);
    let y = place_along(o.y, d.y, &hit.distance, hit.normal.y);
    let z = place_along(o.z, d.z, &hit.distance, hit.normal.z);
    match (x, y, z) {
        (Some(x), Some(y), Some(z)) => Some(Vector3::new(x, y, z)),
        _ => None,
    }
}

/// What a press of a button does: the ray is cast at the blocks, and the
/// block it strikes first, if any, is removed or gets a new block placed
/// against the face that was hit.
///
/// A `max_distance` that is not positive is refused, and so is a
/// placement that would put the new block outside the world.
pub fn place_block(ray: &Ray, blocks: &Vec<Block>, max_distance: Fraction, action: Action) -> (r:
    Result<Outcome, PickError>)
    ensures
        match r {
            Ok(Outcome::NoAction) => max_distance@.num > 0 && nearest(
                ray@,
                blocks@,
                max_distance@,
            ) is None,
            Ok(Outcome::Delete(id)) => max_distance@.num > 0 && action == Action::Remove && (
            nearest(ray@, blocks@, max_distance@) matches Some(s) && id == s.entity),
            Ok(Outcome::Insert(p)) => max_distance@.num > 0 && action == Action::Place && (
            nearest(ray@, blocks@, max_distance@) matches Some(s) && p@ == placement(
                ray@,
                s.t,
                s.normal,
            ) && Cuboid::unit_cube(p@).in_world()),
            Err(PickError::InvalidMaxDistance) => max_distance@.num <= 0,
            Err(PickError::OutOfWorld) => max_distance@.num > 0 && action == Action::Place && (
            nearest(ray@, blocks@, max_distance@) matches Some(s) && !Cuboid::unit_cube(
                placement(ray@, s.t, s.normal),
            ).in_world()),
            Err(_) => false,
        },
{
    match find_nearest_hit(ray, blocks, max_distance) {
        Err(e) => Err(e),
        Ok(None) => Ok(Outcome::NoAction),
        Ok(Some(hit)) => match action {
            Action::Remove => Ok(Outcome::Delete(hit.entity)),
            Action::Place => match placement_position(ray, &hit) {
                Some(p) => Ok(Outcome::Insert(p)),
                None => Err(PickError::OutOfWorld),
            },
        },
    }
}

} // verus!
