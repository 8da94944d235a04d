//! The store of generated chunks, by chunk coordinate.

use crate::chunk::{Chunk, ChunkOrAir, ChunkSection};
use crate::position::{ChunkPosition, ChunkSectionPosition, SECTION_SIZE};
use std::collections::HashMap;
use vstd::prelude::*;
use vstd::std_specs::hash::*;

verus! {

broadcast use vstd::std_specs::hash::group_hash_axioms;

/// The generated chunks of the world. A chunk is put in once and read many
/// times; a coordinate without a chunk reads as air.
#[derive(Clone)]
pub struct ChunkMap {
    chunks: HashMap<u128, Chunk>,
}

/// `store` after the first `count` of `entries` were put in, in order: a
/// later entry replaces an earlier one at the same position.
pub open spec fn extended(
    store: Map<ChunkPosition, Chunk>,
    entries: Seq<(ChunkPosition, Chunk)>,
    count: int,
) -> Map<ChunkPosition, Chunk>
    decreases count,
{
    if count <= 0 {
        store
    } else {
        extended(store, entries, count - 1).insert(entries[count - 1].0, entries[count - 1].1)
    }
}

/// `store` after the chunks of the column `section` that hold a block other
/// than air were put in at `position`, each at its height.
pub open spec fn with_section(
    store: Map<ChunkPosition, Chunk>,
    position: ChunkSectionPosition,
    section: ChunkSection,
) -> Map<ChunkPosition, Chunk> {
    Map::new(
        |at: ChunkPosition|
            store.contains_key(at) || (at.section() == position && section.occupied(at.y as int)),
        |at: ChunkPosition|
            if at.section() == position && section.occupied(at.y as int) {
                section@[at.y as int]->0
            } else {
                store[at]
            },
    )
}

impl ChunkMap {
    /// The chunks by position.
    pub closed spec fn view(&self) -> Map<ChunkPosition, Chunk> {
        Map::new(
            |position: ChunkPosition| self.chunks@.contains_key(position.spec_key()),
            |position: ChunkPosition| self.chunks@[position.spec_key()],
        )
    }

    /// What every constructor establishes and every method keeps: each
    /// stored chunk is a proper chunk.
    pub open spec fn inv(&self) -> bool {
        forall|position: ChunkPosition| #[trigger]
            self@.contains_key(position) ==> self@[position].inv()
    }

    /// An empty store.
    pub fn new() -> (store: Self)
        ensures
            store.inv(),
            store@ == Map::<ChunkPosition, Chunk>::empty(),
    {
        let store = ChunkMap { chunks: HashMap::new() };
        assert(store@ =~= Map::<ChunkPosition, Chunk>::empty());
        store
    }

    /// Whether a chunk was stored at `position`.
    pub fn contains_key(&self, position: &ChunkPosition) -> (found: bool)
        ensures
            found == self@.contains_key(*position),
    {
        let key = position.key();
        self.chunks.contains_key(&key)
    }

    /// The chunk stored at `position`, if there is one.
    pub fn get(&self, position: &ChunkPosition) -> (chunk: Option<&Chunk>)
        ensures
            chunk is Some == self@.contains_key(*position),
            chunk matches Some(found) ==> *found == self@[*position],
    {
        let key = position.key();
        self.chunks.get(&key)
    }

    /// The chunk stored at `position`, or air where there is none.
    pub fn chunk_at(&self, position: &ChunkPosition) -> (chunk: ChunkOrAir<'_>)
        ensures
            chunk.0 is Some == self@.contains_key(*position),
            chunk.0 matches Some(found) ==> *found == self@[*position],
            self.inv() ==> chunk.inv(),
    {
        ChunkOrAir(self.get(position))
    }

    /// Stores `chunk` at `position`, in place of the chunk that was there.
    pub fn update_chunk_at(&mut self, position: ChunkPosition, chunk: Chunk)
        ensures
            final(self)@ == old(self)@.insert(position, chunk),
            old(self).inv() && chunk.inv() ==> final(self).inv(),
    {
        let key = position.key();
        self.chunks.insert(key, chunk);
        assert(final(self)@ =~= old(self)@.insert(position, chunk)) by {
            assert forall|other: ChunkPosition|
                other.spec_key() == position.spec_key() <==> other == position by {
                other.lemma_key_injective(position);
            }
        }
    }

    /// Stores every entry of `new_chunks`, in order.
    pub fn extend(&mut self, new_chunks: Vec<(ChunkPosition, Chunk)>)
        ensures
            final(self)@ == extended(old(self)@, new_chunks@, new_chunks@.len() as int),
            old(self).inv() && (forall|i: int|
                0 <= i < new_chunks@.len() ==> (#[trigger] new_chunks@[i]).1.inv())
                ==> final(self).inv(),
    {
        let ghost entries = new_chunks@;
        let mut remaining = new_chunks;
        let mut stored: Vec<(ChunkPosition, Chunk)> = Vec::new();
        // Entries leave `remaining` from its end, so the order is turned first.
        while remaining.len() > 0
            invariant
                remaining@.len() + stored@.len() == entries.len(),
                forall|i: int| 0 <= i < remaining@.len() ==> remaining@[i] == entries[i],
                forall|i: int|
                    0 <= i < stored@.len() ==> stored@[i] == entries[entries.len() - 1 - i],
            decreases remaining@.len(),
        {
            let entry = remaining.pop().unwrap();
            stored.push(entry);
        }
        let ghost mut count: int = 0;
        while stored.len() > 0
            invariant
                0 <= count,
                count + stored@.len() == entries.len(),
                forall|i: int|
                    0 <= i < stored@.len() ==> stored@[i] == entries[entries.len() - 1 - i],
                self@ == extended(old(self)@, entries, count),
                old(self).inv() && (forall|i: int|
                    0 <= i < entries.len() ==> (#[trigger] entries[i]).1.inv()) ==> self.inv(),
            decreases stored@.len(),
        {
            let (position, chunk) = stored.pop().unwrap();
            assert((position, chunk) == entries[count]);
            self.update_chunk_at(position, chunk);
            assert(self@ == extended(old(self)@, entries, count + 1));
            proof {
                count = count + 1;
            }
        }
    }
}

/// Whether one of the entries of `found` from index `from` on has the
/// height `y`.
spec fn placed(found: Seq<(usize, Chunk)>, from: int, y: int) -> bool {
    exists|k: int| from <= k < found.len() && (#[trigger] found[k]).0 == y
}

/// `store` after the entries of `found` from index `from` on were put in at
/// the column `position`.
spec fn partly_stored(
    store: Map<ChunkPosition, Chunk>,
    position: ChunkSectionPosition,
    section: ChunkSection,
    found: Seq<(usize, Chunk)>,
    from: int,
) -> Map<ChunkPosition, Chunk> {
    Map::new(
        |at: ChunkPosition|
            store.contains_key(at) || (at.section() == position && placed(found, from, at.y as int)),
        |at: ChunkPosition|
            if at.section() == position && placed(found, from, at.y as int) {
                section@[at.y as int]->0
            } else {
                store[at]
            },
    )
}

impl ChunkMap {
    /// Stores the chunks of a generated column that hold a block other than
    /// air; its chunks of air are dropped, so their places read as air.
    pub fn insert_section(&mut self, position: ChunkSectionPosition, section: ChunkSection)
        requires
            old(self).inv(),
            section.inv(),
        ensures
            final(self).inv(),
            final(self)@ == with_section(old(self)@, position, section),
    {
        let chunks = section.into_chunks();
        let ghost found = chunks@;
        let mut remaining = chunks;
        assert(self@ =~= partly_stored(old(self)@, position, section, found, found.len() as int));
        while remaining.len() > 0
            invariant
                self.inv(),
                section.inv(),
                remaining@.len() <= found.len(),
                forall|k: int| 0 <= k < remaining@.len() ==> remaining@[k] == found[k],
                forall|k: int|
                    0 <= k < found.len() ==> {
                        &&& section.occupied((#[trigger] found[k]).0 as int)
                        &&& section@[found[k].0 as int] == Some(found[k].1)
                        &&& found[k].1.inv()
                    },
                self@ == partly_stored(
                    old(self)@,
                    position,
                    section,
                    found,
                    remaining@.len() as int,
                ),
            decreases remaining@.len(),
        {
            let ghost index = remaining@.len() - 1;
            let (height, chunk) = remaining.pop().unwrap();
            assert((height, chunk) == found[index]);
            let at = position.with_y(height as i32);
            self.update_chunk_at(at, chunk);
            proof {
                let after = partly_stored(old(self)@, position, section, found, index);
                assert forall|other: ChunkPosition|
                    other.section() == position implies (placed(found, index, other.y as int)
                    <==> other == at || placed(found, index + 1, other.y as int)) by {
                    if placed(found, index, other.y as int) {
                        let k = choose|k: int|
                            index <= k < found.len() && (#[trigger] found[k]).0 == other.y;
                        if k != index {
                            assert(placed(found, index + 1, other.y as int));
                        }
                    }
                    if placed(found, index + 1, other.y as int) {
                        let k = choose|k: int|
                            index + 1 <= k < found.len() && (#[trigger] found[k]).0 == other.y;
                        assert(index <= k);
                    }
                    if other == at {
                        assert(found[index].0 == other.y);
                    }
                }
                assert(self@ =~= after);
            }
        }
        proof {
            assert forall|y: int| placed(found, 0, y) <==> section.occupied(y) by {
                if placed(found, 0, y) {
                    let k = choose|k: int| 0 <= k < found.len() && (#[trigger] found[k]).0 == y;
                    assert(section.occupied(found[k].0 as int));
                }
            }
            assert(self@ =~= with_section(old(self)@, position, section));
        }
    }
}

impl Default for ChunkMap {
    fn default() -> (store: Self)
        ensures
            store.inv(),
            store@ == Map::<ChunkPosition, Chunk>::empty(),
    {
        ChunkMap::new()
    }
}

} // verus!
