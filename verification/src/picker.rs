//! Blocks, and the search for the block that a ray strikes first.

use vstd::prelude::*;
use crate::error::PickError;
use crate::fraction::{Fraction, Ratio};
use crate::geometry::{AxisAlignedBox, Cuboid, Line, Ray};
use crate::intersect::{contact, intersect, Contact};
use crate::picker_proofs::lemma_nearest_is_minimal;
use crate::vector::{Point, Vector3};

verus! {

/// The name of a block: a handle that is compared and passed on, and read
/// by nobody here.
#[derive(Clone, Copy, Debug, PartialEq, Eq, Hash, Structural)]
pub struct BlockId(pub u64);

/// A unit cube with a name: the mathematical value of a [`Block`].
pub struct Cube {
    pub center: Point,
    pub id: BlockId,
}

impl Cube {
    /// The space that the cube takes up.
    pub open spec fn extent(self) -> Cuboid {
        Cuboid::unit_cube(self.center)
    }
}

/// A block of the world: a cube of one grid unit around its position, all
/// of it inside the world.
#[derive(Clone, Copy, Debug)]
pub struct Block {
    position: Vector3,
    id: BlockId,
}

impl View for Block {
    type V = Cube;

    closed spec fn view(&self) -> Cube {
        Cube { center: self.position@, id: self.id }
    }
}

impl Block {
    /// What holds of every block.
    #[verifier::type_invariant]
    pub open spec fn wf(self) -> bool {
        self@.extent().in_world()
    }

    /// The block `id` centred at `position`, or [`PickError::OutOfWorld`]
    /// if a corner of it is beyond the world's limit.
    pub fn new(position: Vector3, id: BlockId) -> (r: Result<Block, PickError>)
        ensures
            match r {
                Ok(b) => b@ == (Cube { center: position@, id }) && b@.extent().in_world(),
                Err(e) => e == PickError::OutOfWorld && !Cuboid::unit_cube(position@).in_world(),
            },
    {
        match AxisAlignedBox::unit_cube(position) {
            Ok(_) => Ok(Block { position, id }),
            Err(e) => Err(e),
        }
    }

    /// The block's centre.
    pub fn position(&self) -> (p: Vector3)
        ensures
            p@ == self@.center,
    {
        self.position
    }

    /// The block's name.
    pub fn id(&self) -> (id: BlockId)
        ensures
            id == self@.id,
    {
        self.id
    }

    /// The space that the block takes up.
    pub fn bounds(&self) -> (b: AxisAlignedBox)
        ensures
            b@ == self@.extent(),
    {
        proof {
            use_type_invariant(self);
        }
        AxisAlignedBox::unit_cube(self.position).unwrap()
    }
}

/// A contact and the name of the block it is with: the mathematical value
/// of a [`HitRecord`].
pub struct Strike {
    pub t: Ratio,
    pub normal: Point,
    pub entity: BlockId,
}

/// The nearest hit of a ray among a set of blocks.
#[derive(Clone, Copy, Debug)]
pub struct HitRecord {
    /// The ray's parameter at the hit: the distance to it, in grid units,
    /// where the ray's direction is one grid unit long. It is not negative.
    pub distance: Fraction,
    /// The normal of the face that was hit, one grid unit long.
    pub normal: Vector3,
    /// The block that was hit.
    pub entity: BlockId,
}

impl View for HitRecord {
    type V = Strike;

    open spec fn view(&self) -> Strike {
        Strike { t: self.distance@, normal: self.normal@, entity: self.entity }
    }
}

/// The view of an optional hit record.
pub open spec fn record_view(found: Option<HitRecord>) -> Option<Strike> {
    match found {
        Some(record) => Some(record@),
        None => None,
    }
}

/// The ray's contact with one block.
pub open spec fn block_contact(line: Line, block: Block) -> Option<Contact> {
    contact(line, block@.extent())
}

/// The index of the block that the ray strikes first, before `limit`, among
/// `blocks`. The blocks are tried in order, and one replaces the best so
/// far only if its contact comes strictly earlier.
pub open spec fn nearest_index(line: Line, blocks: Seq<Block>, limit: Ratio) -> Option<int>
    decreases blocks.len(),
{
    if blocks.len() == 0 {
        None
    } else {
        let earlier = nearest_index(line, blocks.drop_last(), limit);
        match block_contact(line, blocks.last()) {
            Some(c) => if c.t.lt(closest(line, blocks.drop_last(), limit, earlier)) {
                Some(blocks.len() - 1)
            } else {
                earlier
            },
            None => earlier,
        }
    }
}

/// The parameter that a later contact has to beat: that of the best block
/// so far, or `limit` where there is none yet.
pub open spec fn closest(line: Line, blocks: Seq<Block>, limit: Ratio, best: Option<int>) -> Ratio {
    match best {
        Some(i) => match block_contact(line, blocks[i]) {
            Some(c) => c.t,
            None => limit,
        },
        None => limit,
    }
}

/// The strike on the block at `index`.
pub open spec fn strike_at(line: Line, blocks: Seq<Block>, index: Option<int>) -> Option<Strike> {
    match index {
        Some(i) => match block_contact(line, blocks[i]) {
            Some(c) => Some(Strike { t: c.t, normal: c.normal, entity: blocks[i]@.id }),
            None => None,
        },
        None => None,
    }
}

/// The first strike of the ray among `blocks`, before `limit`.
pub open spec fn nearest(line: Line, blocks: Seq<Block>, limit: Ratio) -> Option<Strike> {
    strike_at(line, blocks, nearest_index(line, blocks, limit))
}

/// The block at `winner` is struck before `limit`, no block is struck
/// earlier, and every block before it in the sequence is struck later; or,
/// without a winner, no block is struck before `limit`.
pub open spec fn is_first_strike(
    line: Line,
    blocks: Seq<Block>,
    limit: Ratio,
    winner: Option<int>,
) -> bool {
    match winner {
        Some(i) => {
            &&& 0 <= i < blocks.len()
            &&& block_contact(line, blocks[i]) matches Some(c)
            &&& c.t.lt(limit)
            &&& forall|j: int|
                0 <= j < blocks.len() ==> (#[trigger] block_contact(line, blocks[j]) matches Some(
                    other,
                ) ==> c.t.le(other.t) && (j < i ==> c.t.lt(other.t)))
        },
        None => forall|j: int|
            0 <= j < blocks.len() ==> (#[trigger] block_contact(line, blocks[j]) matches Some(
                other,
            ) ==> !other.t.lt(limit)),
    }
}

/// The block that `ray` strikes first among `blocks`, with the ray's
/// parameter there below `max_distance`; `None` where it strikes none that
/// soon. A `max_distance` that is not positive is refused.
///
/// No block is struck earlier than the one returned. Of several blocks
/// struck at the same parameter, the first in `blocks` is returned. A block
/// struck exactly at `max_distance` is not.
pub fn find_nearest_hit(ray: &Ray, blocks: &Vec<Block>, max_distance: Fraction) -> (r: Result<
    Option<HitRecord>,
    PickError,
>)
    ensures
        match r {
            Ok(found) => max_distance@.num > 0 && record_view(found) == nearest(
                ray@,
                blocks@,
                max_distance@,
            ),
            Err(e) => max_distance@.num <= 0 && e == PickError::InvalidMaxDistance,
        },
        r matches Ok(Some(record)) ==> record.distance@.valid() && record.distance@.num >= 0
            && record.distance@.lt(max_distance@),
        is_first_strike(ray@, blocks@, max_distance@, nearest_index(ray@, blocks@, max_distance@)),
{
    proof {
        use_type_invariant(&max_distance);
        lemma_nearest_is_minimal(ray@, blocks@, max_distance@);
    }
    if !max_distance.is_positive() {
        return Err(PickError::InvalidMaxDistance);
    }
    let mut best: Option<HitRecord> = None;
    let mut closest_distance: Fraction = max_distance;
    let ghost mut winner: Option<int> = None;
    let mut i: usize = 0;
    while i < blocks.len()
        invariant
            i <= blocks.len(),
            winner == nearest_index(ray@, blocks@.take(i as int), max_distance@),
            record_view(best) == strike_at(ray@, blocks@.take(i as int), winner),
            closest_distance@ == closest(ray@, blocks@.take(i as int), max_distance@, winner),
            winner matches Some(w) ==> 0 <= w < i && block_contact(ray@, blocks@[w]) is Some,
        decreases blocks.len() - i,
    {
        let block = &blocks[i];
        let ghost before = blocks@.take(i as int);
        let ghost upto = blocks@.take(i + 1);
        proof {
            assert(upto.drop_last() == before);
            assert(upto.last() == blocks@[i as int]);
        }
        let bounds = block.bounds();
        if let Some(hit) = intersect(ray, &bounds) {
            if hit.t.lt(&closest_distance) {
                closest_distance = hit.t;
                best = Some(HitRecord { distance: hit.t, normal: hit.normal, entity: block.id() });
                proof {
                    winner = Some(i as int);
                }
            }
        }
        i += 1;
    }
    proof {
        assert(blocks@.take(blocks.len() as int) == blocks@);
    }
    Ok(best)
}

} // verus!
