//! The tables of offsets around the origin that the scheduler walks:
//! every offset within reach, the nearest first.

use crate::position::{ChunkPosition, ChunkSectionPosition};
use vstd::prelude::*;

verus! {

/// Largest distance, in chunks, that a table can reach.
pub const MAX_DISTANCE: i32 = 0x1000_0000;

/// Whether `offset` is within `horizontal` chunks of the origin along `x`
/// and `z`, and within `vertical` chunks along `y`.
pub open spec fn in_reach(offset: ChunkPosition, horizontal: int, vertical: int) -> bool {
    &&& -horizontal <= offset.x <= horizontal
    &&& -horizontal <= offset.z <= horizontal
    &&& -vertical <= offset.y <= vertical
}

/// Whether `offset` comes before `(x, y, z)` where offsets are listed by
/// `x`, then by `z`, then by `y`.
pub open spec fn listed_before(offset: ChunkPosition, x: int, z: int, y: int) -> bool {
    offset.x < x || (offset.x == x && (offset.z < z || (offset.z == z && offset.y < y)))
}

/// The order of a table: the nearer offset first, and of two offsets at
/// the same distance the one that is listed first.
pub open spec fn precedes(first: ChunkPosition, second: ChunkPosition) -> bool {
    ||| first.spec_length_squared() < second.spec_length_squared()
    ||| first.spec_length_squared() == second.spec_length_squared() && listed_before(
        first,
        second.x as int,
        second.z as int,
        second.y as int,
    )
}

/// Whether `offsets` is the table of the offsets within reach: it holds
/// each of them, nothing else, and is in the order of a table, so it
/// holds none twice.
pub open spec fn is_radial(offsets: Seq<ChunkPosition>, horizontal: int, vertical: int) -> bool {
    &&& forall|offset: ChunkPosition| #[trigger]
        offsets.contains(offset) <==> in_reach(offset, horizontal, vertical)
    &&& forall|i: int, j: int|
        0 <= i < j < offsets.len() ==> precedes(#[trigger] offsets[i], #[trigger] offsets[j])
}

/// The order of a table of columns.
pub open spec fn section_precedes(first: ChunkSectionPosition, second: ChunkSectionPosition) -> bool {
    precedes(first.spec_with_y(0), second.spec_with_y(0))
}

/// Whether `offsets` is the table of the columns within `distance` of the
/// origin.
pub open spec fn is_radial_sections(offsets: Seq<ChunkSectionPosition>, distance: int) -> bool {
    &&& forall|offset: ChunkSectionPosition| #[trigger]
        offsets.contains(offset) <==> -distance <= offset.x <= distance && -distance <= offset.z
            <= distance
    &&& forall|i: int, j: int|
        0 <= i < j < offsets.len() ==> section_precedes(
            #[trigger] offsets[i],
            #[trigger] offsets[j],
        )
}

/// Whether `after` is `before` sorted by the first component, entries with
/// equal first components staying in their order: `from` says where each
/// entry of `after` stood in `before`, and `to` where each entry of
/// `before` went.
pub open spec fn stably_sorted<T>(
    before: Seq<(u64, T)>,
    after: Seq<(u64, T)>,
    from: Seq<int>,
    to: Seq<int>,
) -> bool {
    &&& after.len() == before.len()
    &&& from.len() == before.len()
    &&& to.len() == before.len()
    &&& forall|i: int|
        0 <= i < after.len() ==> 0 <= #[trigger] from[i] < before.len() && after[i]
            == before[from[i]] && to[from[i]] == i
    &&& forall|k: int|
        0 <= k < before.len() ==> 0 <= #[trigger] to[k] < after.len() && from[to[k]] == k
    &&& forall|i: int, j: int|
        0 <= i < j < after.len() ==> (#[trigger] after[i]).0 <= (#[trigger] after[j]).0
    &&& forall|i: int, j: int|
        0 <= i < j < after.len() && after[i].0 == after[j].0 ==> #[trigger] from[i]
            < #[trigger] from[j]
}

/// Sorts `entries` by their first component with `sort_by_key` of the
/// standard library's slices. Believed of it, from its documentation: the
/// result is a rearrangement of the entries in ascending order of the key,
/// and entries with equal keys keep their order.
#[verifier::external_body]
fn sort_by_distance<T>(entries: &mut Vec<(u64, T)>)
    ensures
        exists|from: Seq<int>, to: Seq<int>| #[trigger]
            stably_sorted(old(entries)@, final(entries)@, from, to),
{
    entries.sort_by_key(|entry| entry.0);
}

/// Whether one of `entries` is `offset`.
spec fn lists(entries: Seq<(u64, ChunkPosition)>, offset: ChunkPosition) -> bool {
    exists|i: int| 0 <= i < entries.len() && (#[trigger] entries[i]).1 == offset
}

/// Whether `entries` are the offsets within reach that come before
/// `(x, y, z)`, in the order in which they are listed, each with its
/// squared distance.
spec fn listed_upto(
    entries: Seq<(u64, ChunkPosition)>,
    horizontal: int,
    vertical: int,
    x: int,
    z: int,
    y: int,
) -> bool {
    &&& forall|i: int|
        0 <= i < entries.len() ==> {
            &&& (#[trigger] entries[i]).0 == entries[i].1.spec_length_squared()
            &&& in_reach(entries[i].1, horizontal, vertical)
            &&& listed_before(entries[i].1, x, z, y)
        }
    &&& forall|i: int, j: int|
        0 <= i < j < entries.len() ==> listed_before(
            (#[trigger] entries[i]).1,
            (#[trigger] entries[j]).1.x as int,
            entries[j].1.z as int,
            entries[j].1.y as int,
        )
    &&& forall|offset: ChunkPosition|
        in_reach(offset, horizontal, vertical) && listed_before(offset, x, z, y) ==> #[trigger] lists(
            entries,
            offset,
        )
}

/// The table of the chunks to keep meshed: every offset within
/// `horizontal` chunks along `x` and `z` and `vertical` chunks along `y`,
/// the nearest first.
pub fn visible_offsets(horizontal: i32, vertical: i32) -> (offsets: Vec<ChunkPosition>)
    requires
        0 <= horizontal <= MAX_DISTANCE,
        0 <= vertical <= MAX_DISTANCE,
    ensures
        is_radial(offsets@, horizontal as int, vertical as int),
{
    let mut entries: Vec<(u64, ChunkPosition)> = Vec::new();
    let mut x: i32 = -horizontal;
    while x <= horizontal
        invariant
            0 <= horizontal <= MAX_DISTANCE,
            0 <= vertical <= MAX_DISTANCE,
            -horizontal <= x <= horizontal + 1,
            listed_upto(
                entries@,
                horizontal as int,
                vertical as int,
                x as int,
                -horizontal as int,
                -vertical as int,
            ),
        decreases horizontal - x + 1,
    {
        let mut z: i32 = -horizontal;
        while z <= horizontal
            invariant
                0 <= horizontal <= MAX_DISTANCE,
                0 <= vertical <= MAX_DISTANCE,
                -horizontal <= x <= horizontal,
                -horizontal <= z <= horizontal + 1,
                listed_upto(
                    entries@,
                    horizontal as int,
                    vertical as int,
                    x as int,
                    z as int,
                    -vertical as int,
                ),
            decreases horizontal - z + 1,
        {
            let mut y: i32 = -vertical;
            while y <= vertical
                invariant
                    0 <= horizontal <= MAX_DISTANCE,
                    0 <= vertical <= MAX_DISTANCE,
                    -horizontal <= x <= horizontal,
                    -horizontal <= z <= horizontal,
                    -vertical <= y <= vertical + 1,
                    listed_upto(
                        entries@,
                        horizontal as int,
                        vertical as int,
                        x as int,
                        z as int,
                        y as int,
                    ),
                decreases vertical - y + 1,
            {
                let offset = ChunkPosition { x, y, z };
                let ghost listed = entries@;
                entries.push((offset.length_squared(), offset));
                proof {
                    assert forall|other: ChunkPosition|
                        in_reach(other, horizontal as int, vertical as int) && listed_before(
                            other,
                            x as int,
                            z as int,
                            y + 1,
                        ) implies #[trigger] lists(entries@, other) by {
                        if other == offset {
                            assert(entries@[listed.len() as int].1 == other);
                        } else {
                            assert(lists(listed, other));
                            let i = choose|i: int|
                                0 <= i < listed.len() && (#[trigger] listed[i]).1 == other;
                            assert(entries@[i].1 == other);
                        }
                    }
                }
                y += 1;
            }
            proof {
                assert forall|other: ChunkPosition|
                    in_reach(other, horizontal as int, vertical as int) && listed_before(
                        other,
                        x as int,
                        z + 1,
                        -vertical as int,
                    ) implies #[trigger] lists(entries@, other) by {
                    assert(listed_before(other, x as int, z as int, vertical + 1));
                }
            }
            z += 1;
        }
        proof {
            assert forall|other: ChunkPosition|
                in_reach(other, horizontal as int, vertical as int) && listed_before(
                    other,
                    x + 1,
                    -horizontal as int,
                    -vertical as int,
                ) implies #[trigger] lists(entries@, other) by {
                assert(listed_before(other, x as int, horizontal + 1, -vertical as int));
            }
        }
        x += 1;
    }
    let ghost listed = entries@;
    sort_by_distance(&mut entries);
    let ghost sorted = entries@;
    let ghost (from, to) = choose|from: Seq<int>, to: Seq<int>| #[trigger]
        stably_sorted(listed, sorted, from, to);
    let mut offsets: Vec<ChunkPosition> = Vec::new();
    let mut index: usize = 0;
    while index < entries.len()
        invariant
            index <= entries@.len(),
            entries@ == sorted,
            offsets@.len() == index,
            forall|i: int| 0 <= i < index ==> #[trigger] offsets@[i] == sorted[i].1,
        decreases entries@.len() - index,
    {
        offsets.push(entries[index].1);
        index += 1;
    }
    proof {
        assert forall|offset: ChunkPosition| #[trigger] offsets@.contains(offset) <==> in_reach(
            offset,
            horizontal as int,
            vertical as int,
        ) by {
            if offsets@.contains(offset) {
                let i = choose|i: int| 0 <= i < offsets@.len() && offsets@[i] == offset;
                assert(sorted[i] == listed[from[i]]);
            }
            if in_reach(offset, horizontal as int, vertical as int) {
                assert(listed_before(
                    offset,
                    horizontal + 1,
                    -horizontal as int,
                    -vertical as int,
                ));
                assert(lists(listed, offset));
                let k = choose|k: int| 0 <= k < listed.len() && (#[trigger] listed[k]).1 == offset;
                assert(sorted[to[k]] == listed[from[to[k]]]);
                assert(offsets@[to[k]] == offset);
            }
        }
        assert forall|i: int, j: int| 0 <= i < j < offsets@.len() implies precedes(
            #[trigger] offsets@[i],
            #[trigger] offsets@[j],
        ) by {
            assert(sorted[i] == listed[from[i]]);
            assert(sorted[j] == listed[from[j]]);
            assert(sorted[i].0 <= sorted[j].0);
            if sorted[i].0 == sorted[j].0 {
                assert(from[i] < from[j]);
            }
        }
    }
    offsets
}

/// The table of the columns to generate: every column within `distance`
/// of the origin, the nearest first.
pub fn generating_offsets(distance: i32) -> (offsets: Vec<ChunkSectionPosition>)
    requires
        0 <= distance <= MAX_DISTANCE,
    ensures
        is_radial_sections(offsets@, distance as int),
{
    let chunks = visible_offsets(distance, 0);
    let mut offsets: Vec<ChunkSectionPosition> = Vec::new();
    let mut index: usize = 0;
    while index < chunks.len()
        invariant
            index <= chunks@.len(),
            offsets@.len() == index,
            forall|i: int| 0 <= i < index ==> #[trigger] offsets@[i] == chunks@[i].spec_section(),
        decreases chunks@.len() - index,
    {
        offsets.push(chunks[index].section());
        index += 1;
    }
    proof {
        assert forall|i: int| 0 <= i < chunks@.len() implies (#[trigger] chunks@[i]).y == 0 by {
            assert(chunks@.contains(chunks@[i]));
        }
        assert forall|offset: ChunkSectionPosition| #[trigger] offsets@.contains(offset) <==> -distance
            <= offset.x <= distance && -distance <= offset.z <= distance by {
            if offsets@.contains(offset) {
                let i = choose|i: int| 0 <= i < offsets@.len() && offsets@[i] == offset;
                assert(chunks@.contains(chunks@[i]));
            }
            if -distance <= offset.x <= distance && -distance <= offset.z <= distance {
                assert(chunks@.contains(offset.spec_with_y(0)));
                let k = choose|k: int|
                    0 <= k < chunks@.len() && chunks@[k] == offset.spec_with_y(0);
                assert(offsets@[k] == offset);
            }
        }
        assert forall|i: int, j: int| 0 <= i < j < offsets@.len() implies section_precedes(
            #[trigger] offsets@[i],
            #[trigger] offsets@[j],
        ) by {
            assert(precedes(chunks@[i], chunks@[j]));
            assert(offsets@[i].spec_with_y(0) == chunks@[i]);
            assert(offsets@[j].spec_with_y(0) == chunks@[j]);
        }
    }
    offsets
}

} // verus!
