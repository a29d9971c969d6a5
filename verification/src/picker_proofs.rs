//! Why the scan over the blocks finds the first strike.

use vstd::prelude::*;
use crate::fraction::{Ratio, lemma_ratio_order_transitive};
use crate::geometry::{Cuboid, Line};
use crate::intersect::contact;
use crate::intersect_proofs::lemma_window_holds;
use crate::picker::{block_contact, closest, is_first_strike, nearest, nearest_index, Block};
use crate::placement::placement;

verus! {

/// The parameter of a contact with a valid box is a valid ratio that is not
/// negative.
pub proof fn lemma_contact_parameter_valid(line: Line, cuboid: Cuboid)
    requires
        cuboid.valid(),
    ensures
        contact(line, cuboid) matches Some(c) ==> c.t.valid() && c.t.num >= 0,
{
    lemma_window_holds(line, cuboid, Ratio::whole(0));
}

/// The block that the scan settles on is the one struck first, and the
/// first in the sequence of those struck at that parameter.
pub proof fn lemma_nearest_is_minimal(line: Line, blocks: Seq<Block>, limit: Ratio)
    requires
        limit.valid(),
    ensures
        is_first_strike(line, blocks, limit, nearest_index(line, blocks, limit)),
    decreases blocks.len(),
{
    if blocks.len() > 0 {
        let before = blocks.drop_last();
        let last = blocks.last();
        let earlier = nearest_index(line, before, limit);
        lemma_nearest_is_minimal(line, before, limit);
        assert forall|j: int| 0 <= j < before.len() implies before[j] == blocks[j] by {}
        let bound = closest(line, before, limit, earlier);
        assert forall|j: int| 0 <= j < blocks.len() implies (#[trigger] block_contact(
            line,
            blocks[j],
        ) matches Some(c) ==> c.t.valid()) by {
            lemma_contact_parameter_valid(line, blocks[j]@.extent());
        }
        assert(bound.valid());
        match block_contact(line, last) {
            Some(c) => {
                if c.t.lt(bound) {
                    let i = blocks.len() - 1;
                    assert forall|j: int| 0 <= j < blocks.len() implies (#[trigger] block_contact(
                        line,
                        blocks[j],
                    ) matches Some(other) ==> c.t.le(other.t) && (j < i ==> c.t.lt(other.t))) by {
                        if j < i {
                            match block_contact(line, blocks[j]) {
                                Some(other) => {
                                    assert(block_contact(line, before[j]) == Some(other));
                                    lemma_ratio_order_transitive(c.t, bound, other.t);
                                },
                                None => {},
                            }
                        }
                    }
                    match earlier {
                        Some(e) => {
                            lemma_ratio_order_transitive(c.t, bound, limit);
                        },
                        None => {},
                    }
                } else {
                    match earlier {
                        Some(e) => {
                            assert(before[e] == blocks[e]);
                        },
                        None => {},
                    }
                }
            },
            None => {
                match earlier {
                    Some(e) => {
                        assert(before[e] == blocks[e]);
                    },
                    None => {},
                }
            },
        }
    }
}

/// A block added behind the others does not change the first strike,
/// unless the ray strikes the added block strictly earlier.
pub proof fn lemma_appended_block_keeps_hit(
    line: Line,
    blocks: Seq<Block>,
    limit: Ratio,
    added: Block,
)
    requires
        limit.valid(),
        nearest(line, blocks, limit) matches Some(s) && !(block_contact(line, added) matches Some(
            c,
        ) && c.t.lt(s.t)),
    ensures
        nearest(line, blocks.push(added), limit) == nearest(line, blocks, limit),
{
    let after = blocks.push(added);
    lemma_nearest_is_minimal(line, blocks, limit);
    assert(after.drop_last() == blocks);
    assert(after.last() == added);
    let i = nearest_index(line, blocks, limit)->0;
    assert(after[i] == blocks[i]);
}

/// Casting the same ray again, after a block was placed against the face
/// it hit, finds the same hit as before, unless the ray strikes the placed
/// block strictly earlier.
pub proof fn lemma_recast_after_placement(
    line: Line,
    blocks: Seq<Block>,
    limit: Ratio,
    placed: Block,
)
    requires
        limit.valid(),
        nearest(line, blocks, limit) matches Some(s) && placed@.center == placement(
            line,
            s.t,
            s.normal,
        ) && !(block_contact(line, placed) matches Some(c) && c.t.lt(s.t)),
    ensures
        nearest(line, blocks.push(placed), limit) == nearest(line, blocks, limit),
{
    lemma_appended_block_keeps_hit(line, blocks, limit, placed);
}

} // verus!
