//! Chunks: dense cubes of blocks, and the columns they are stacked in.

use crate::block::Block;
use crate::position::{LocalPosition, SECTION_SIZE};
use vstd::prelude::*;

verus! {

/// Number of blocks in a chunk.
pub const CHUNK_VOLUME: usize = 4096;

impl LocalPosition {
    /// Whether the position names a block of a chunk.
    pub open spec fn in_chunk(self) -> bool {
        self.x < 16 && self.y < 16 && self.z < 16
    }

    /// Whether the position names a block of a column of chunks.
    pub open spec fn in_section(self) -> bool {
        self.x < 16 && self.y < 256 && self.z < 16
    }

    /// Where a chunk keeps the block at this position: layer by layer from
    /// the bottom, each layer row by row along `x`.
    pub open spec fn slot(self) -> int {
        self.y * 256 + self.x * 16 + self.z
    }
}

/// Number of blocks other than air in `blocks`.
pub open spec fn count_solid(blocks: Seq<Block>) -> nat
    decreases blocks.len(),
{
    if blocks.len() == 0 {
        0
    } else {
        count_solid(blocks.drop_last()) + if blocks.last() == Block::Air {
            0nat
        } else {
            1nat
        }
    }
}

/// There are no more blocks other than air than there are blocks, and
/// none exactly when every block is air.
pub proof fn lemma_count_solid(blocks: Seq<Block>)
    ensures
        count_solid(blocks) <= blocks.len(),
        count_solid(blocks) == 0 <==> forall|i: int|
            0 <= i < blocks.len() ==> blocks[i] == Block::Air,
    decreases blocks.len(),
{
    if blocks.len() > 0 {
        let rest = blocks.drop_last();
        lemma_count_solid(rest);
        assert forall|i: int| 0 <= i < rest.len() implies rest[i] == blocks[i] by {}
        if count_solid(blocks) == 0 {
            assert forall|i: int| 0 <= i < blocks.len() implies blocks[i] == Block::Air by {
                if i < rest.len() {
                    assert(rest[i] == blocks[i]);
                }
            }
        }
    }
}

/// Writing one block changes the count by what the block adds and what
/// the block it replaces took part in.
proof fn lemma_count_solid_update(blocks: Seq<Block>, slot: int, block: Block)
    requires
        0 <= slot < blocks.len(),
    ensures
        count_solid(blocks.update(slot, block)) + (if blocks[slot] == Block::Air {
            0nat
        } else {
            1nat
        }) == count_solid(blocks) + (if block == Block::Air {
            0nat
        } else {
            1nat
        }),
    decreases blocks.len(),
{
    let written = blocks.update(slot, block);
    if slot == blocks.len() - 1 {
        assert(written.drop_last() =~= blocks.drop_last());
    } else {
        assert(written.drop_last() =~= blocks.drop_last().update(slot, block));
        lemma_count_solid_update(blocks.drop_last(), slot, block);
    }
}

/// A cube of 16 x 16 x 16 blocks.
#[derive(Clone)]
pub struct RawChunk {
    blocks: Vec<Block>,
    solid: u32,
}

pub type Chunk = Box<RawChunk>;

impl RawChunk {
    /// The blocks in storage order; the block at `position` is at
    /// `position.slot()`.
    pub closed spec fn view(&self) -> Seq<Block> {
        self.blocks@
    }

    /// The block at `position`.
    pub open spec fn spec_get(&self, position: LocalPosition) -> Block {
        self@[position.slot()]
    }

    /// Whether the chunk holds nothing but air.
    pub open spec fn spec_is_empty(&self) -> bool {
        forall|i: int| 0 <= i < self@.len() ==> self@[i] == Block::Air
    }

    /// Whether the chunk knows how many of its blocks are not air.
    pub closed spec fn counted(&self) -> bool {
        self.solid == count_solid(self.blocks@)
    }

    /// What every constructor establishes and every method keeps: the chunk
    /// holds exactly `CHUNK_VOLUME` blocks and has counted those that are
    /// not air.
    pub open spec fn inv(&self) -> bool {
        self@.len() == CHUNK_VOLUME && self.counted()
    }

    /// A chunk of air.
    pub fn new() -> (chunk: Self)
        ensures
            chunk.inv(),
            chunk@ == Seq::new(CHUNK_VOLUME as nat, |i: int| Block::Air),
            chunk.spec_is_empty(),
    {
        let mut blocks: Vec<Block> = Vec::with_capacity(CHUNK_VOLUME);
        let mut filled: usize = 0;
        while filled < CHUNK_VOLUME
            invariant
                filled <= CHUNK_VOLUME,
                blocks@.len() == filled,
                forall|i: int| 0 <= i < filled ==> blocks@[i] == Block::Air,
            decreases CHUNK_VOLUME - filled,
        {
            blocks.push(Block::Air);
            filled += 1;
        }
        assert(blocks@ =~= Seq::new(CHUNK_VOLUME as nat, |i: int| Block::Air));
        proof {
            lemma_count_solid(blocks@);
        }
        RawChunk { blocks, solid: 0 }
    }

    pub fn get(&self, position: LocalPosition) -> (block: Block)
        requires
            self.inv(),
            position.in_chunk(),
        ensures
            block == self.spec_get(position),
    {
        let slot: usize = position.y as usize * 256 + position.x as usize * 16
            + position.z as usize;
        self.blocks[slot]
    }

    /// Puts `block` at `position` and leaves every other block as it was.
    pub fn set(&mut self, position: LocalPosition, block: Block)
        requires
            old(self).inv(),
            position.in_chunk(),
        ensures
            final(self).inv(),
            final(self)@ == old(self)@.update(position.slot(), block),
            final(self).spec_get(position) == block,
            forall|other: LocalPosition|
                other.in_chunk() && other != position ==> #[trigger] final(self).spec_get(other)
                    == old(self).spec_get(other),
    {
        let slot: usize = position.y as usize * 256 + position.x as usize * 16
            + position.z as usize;
        proof {
            lemma_count_solid(self.blocks@);
            lemma_count_solid_update(self.blocks@, slot as int, block);
            lemma_count_solid(self.blocks@.update(slot as int, block));
        }
        if self.blocks[slot] != Block::Air {
            self.solid -= 1;
        }
        if block != Block::Air {
            self.solid += 1;
        }
        self.blocks.set(slot, block);
    }

    /// The blocks in storage order.
    pub fn iter(&self) -> (blocks: Vec<Block>)
        requires
            self.inv(),
        ensures
            blocks@ == self@,
    {
        let mut blocks: Vec<Block> = Vec::with_capacity(CHUNK_VOLUME);
        let mut copied: usize = 0;
        while copied < CHUNK_VOLUME
            invariant
                copied <= CHUNK_VOLUME,
                self.blocks@.len() == CHUNK_VOLUME,
                blocks@.len() == copied,
                forall|i: int| 0 <= i < copied ==> blocks@[i] == self.blocks@[i],
            decreases CHUNK_VOLUME - copied,
        {
            blocks.push(self.blocks[copied]);
            copied += 1;
        }
        assert(blocks@ =~= self@);
        blocks
    }

    /// The blocks in storage order, each with its position.
    pub fn iter_enumerate(&self) -> (blocks: Vec<(LocalPosition, Block)>)
        requires
            self.inv(),
        ensures
            blocks@.len() == CHUNK_VOLUME,
            forall|i: int|
                0 <= i < CHUNK_VOLUME ==> {
                    &&& (#[trigger] blocks@[i]).0.in_chunk()
                    &&& blocks@[i].0.slot() == i
                    &&& blocks@[i].1 == self@[i]
                },
    {
        let mut blocks: Vec<(LocalPosition, Block)> = Vec::with_capacity(CHUNK_VOLUME);
        let mut slot: usize = 0;
        while slot < CHUNK_VOLUME
            invariant
                slot <= CHUNK_VOLUME,
                self.blocks@.len() == CHUNK_VOLUME,
                blocks@.len() == slot,
                forall|i: int|
                    0 <= i < slot ==> {
                        &&& (#[trigger] blocks@[i]).0.in_chunk()
                        &&& blocks@[i].0.slot() == i
                        &&& blocks@[i].1 == self.blocks@[i]
                    },
            decreases CHUNK_VOLUME - slot,
        {
            let position = LocalPosition {
                x: (slot / 16 % 16) as u32,
                y: (slot / 256) as u32,
                z: (slot % 16) as u32,
            };
            blocks.push((position, self.blocks[slot]));
            slot += 1;
        }
        blocks
    }

    /// Whether the chunk holds nothing but air. The chunk keeps count, so
    /// no block is looked at.
    #[verifier::when_used_as_spec(spec_is_empty)]
    pub fn is_empty(&self) -> (empty: bool)
        requires
            self.inv(),
        ensures
            empty == self.spec_is_empty(),
    {
        proof {
            lemma_count_solid(self.blocks@);
        }
        self.solid == 0
    }
}

/// A chunk that may be missing; a missing chunk reads as air.
#[derive(Clone, Copy)]
pub struct ChunkOrAir<'s>(pub Option<&'s Chunk>);

impl<'s> ChunkOrAir<'s> {
    pub fn new(chunk: &'s Chunk) -> (view: Self)
        ensures
            view.0 == Some(chunk),
    {
        ChunkOrAir(Some(chunk))
    }

    /// Stands for a chunk that is not there.
    pub fn air() -> (view: Self)
        ensures
            view.0 is None,
    {
        ChunkOrAir(None)
    }

    pub open spec fn inv(&self) -> bool {
        self.0 matches Some(chunk) ==> chunk.inv()
    }

    /// The block at `position`: that of the chunk, or air where there is none.
    pub open spec fn spec_get(&self, position: LocalPosition) -> Block {
        match self.0 {
            Some(chunk) => chunk.spec_get(position),
            None => Block::Air,
        }
    }

    pub fn get(&self, position: LocalPosition) -> (block: Block)
        requires
            self.inv(),
            position.in_chunk(),
        ensures
            block == self.spec_get(position),
    {
        match self.0 {
            Some(chunk) => chunk.get(position),
            None => Block::Air,
        }
    }
}

/// A column of `SECTION_SIZE` chunks, bottom first. A chunk that was never
/// written to is absent and reads as air.
#[derive(Clone)]
pub struct ChunkSection {
    chunks: Vec<Option<Chunk>>,
}

impl ChunkSection {
    /// The chunks of the column, bottom first.
    pub closed spec fn view(&self) -> Seq<Option<Chunk>> {
        self.chunks@
    }

    /// What every constructor establishes and every method keeps: the column
    /// has `SECTION_SIZE` places, and each chunk in it is a proper chunk.
    pub open spec fn inv(&self) -> bool {
        &&& self@.len() == SECTION_SIZE
        &&& forall|i: int| 0 <= i < self@.len() ==> (#[trigger] self@[i] matches Some(chunk)
            ==> chunk.inv())
    }

    /// The block at `position`, whose `y` runs over the whole column.
    pub open spec fn spec_get(&self, position: LocalPosition) -> Block {
        match self@[position.y as int / 16] {
            Some(chunk) => chunk.spec_get(
                LocalPosition { x: position.x, y: (position.y % 16) as u32, z: position.z },
            ),
            None => Block::Air,
        }
    }

    /// Whether the column has, at height `index`, a chunk that holds a block
    /// other than air.
    pub open spec fn occupied(&self, index: int) -> bool {
        &&& 0 <= index < self@.len()
        &&& self@[index] matches Some(chunk) && !chunk.spec_is_empty()
    }

    /// A column of air.
    pub fn new() -> (section: Self)
        ensures
            section.inv(),
            forall|i: int| 0 <= i < SECTION_SIZE ==> section@[i] is None,
    {
        let mut chunks: Vec<Option<Chunk>> = Vec::with_capacity(SECTION_SIZE);
        let mut filled: usize = 0;
        while filled < SECTION_SIZE
            invariant
                filled <= SECTION_SIZE,
                chunks@.len() == filled,
                forall|i: int| 0 <= i < filled ==> chunks@[i] is None,
            decreases SECTION_SIZE - filled,
        {
            chunks.push(None);
            filled += 1;
        }
        ChunkSection { chunks }
    }

    pub fn get(&self, position: LocalPosition) -> (block: Block)
        requires
            self.inv(),
            position.in_section(),
        ensures
            block == self.spec_get(position),
    {
        let index: usize = (position.y / 16) as usize;
        let position = position.with_y(position.y % 16);
        match &self.chunks[index] {
            Some(chunk) => chunk.get(position),
            None => Block::Air,
        }
    }

    /// Puts `block` at `position`, making the chunk that holds the position
    /// if it was absent, and leaves every other block as it was.
    pub fn set(&mut self, position: LocalPosition, block: Block)
        requires
            old(self).inv(),
            position.in_section(),
            block != Block::Air,
        ensures
            final(self).inv(),
            final(self).spec_get(position) == block,
            forall|other: LocalPosition|
                other.in_section() && other != position ==> #[trigger] final(self).spec_get(other)
                    == old(self).spec_get(other),
    {
        let index: usize = (position.y / 16) as usize;
        let local = position.with_y(position.y % 16);
        let slot = &mut self.chunks[index];
        if slot.is_none() {
            *slot = Some(Box::new(RawChunk::new()));
        }
        match slot {
            Some(chunk) => {
                chunk.set(local, block);
            },
            None => {},
        }
    }
}

impl ChunkSection {
    /// The chunks of the column that hold a block other than air, each with
    /// its height in the column, bottom first. Absent chunks and chunks of
    /// air are left out.
    pub fn into_chunks(self) -> (chunks: Vec<(usize, Chunk)>)
        requires
            self.inv(),
        ensures
            forall|k: int|
                0 <= k < chunks@.len() ==> {
                    &&& self.occupied((#[trigger] chunks@[k]).0 as int)
                    &&& self@[chunks@[k].0 as int] == Some(chunks@[k].1)
                    &&& chunks@[k].1.inv()
                },
            forall|j: int, k: int|
                0 <= j < k < chunks@.len() ==> (#[trigger] chunks@[j]).0 < (#[trigger] chunks@[k]).0,
            forall|i: int|
                self.occupied(i) ==> exists|k: int|
                    0 <= k < chunks@.len() && (#[trigger] chunks@[k]).0 == i,
    {
        let ghost before = self@;
        let mut slots = self.chunks;
        let mut chunks: Vec<(usize, Chunk)> = Vec::new();
        let mut index: usize = 0;
        while index < SECTION_SIZE
            invariant
                index <= SECTION_SIZE,
                self.inv(),
                before == self@,
                slots@.len() == SECTION_SIZE,
                forall|i: int| index <= i < SECTION_SIZE ==> slots@[i] == before[i],
                forall|k: int|
                    0 <= k < chunks@.len() ==> {
                        &&& (#[trigger] chunks@[k]).0 < index
                        &&& self.occupied(chunks@[k].0 as int)
                        &&& before[chunks@[k].0 as int] == Some(chunks@[k].1)
                        &&& chunks@[k].1.inv()
                    },
                forall|j: int, k: int|
                    0 <= j < k < chunks@.len() ==> (#[trigger] chunks@[j]).0 < (
                    #[trigger] chunks@[k]).0,
                forall|i: int|
                    0 <= i < index && self.occupied(i) ==> exists|k: int|
                        0 <= k < chunks@.len() && (#[trigger] chunks@[k]).0 == i,
            decreases SECTION_SIZE - index,
        {
            let ghost found = chunks@;
            let taken = slots[index].take();
            match taken {
                Some(chunk) => {
                    assert(before[index as int] == Some(chunk));
                    if !chunk.is_empty() {
                        chunks.push((index, chunk));
                        assert(chunks@[found.len() as int].0 == index);
                    }
                },
                None => {},
            }
            assert forall|i: int| 0 <= i < index + 1 && self.occupied(i) implies exists|k: int|
                0 <= k < chunks@.len() && (#[trigger] chunks@[k]).0 == i by {
                if i < index {
                    let k = choose|k: int| 0 <= k < found.len() && (#[trigger] found[k]).0 == i;
                    assert(chunks@[k] == found[k]);
                } else {
                    assert(chunks@[found.len() as int].0 == index);
                }
            }
            index += 1;
        }
        chunks
    }
}

impl ChunkSection {
    /// A chunk of the column is occupied exactly when the column has a
    /// block other than air at one of the heights of the chunk.
    pub proof fn lemma_occupied(&self, index: int)
        requires
            self.inv(),
            0 <= index < SECTION_SIZE,
        ensures
            self.occupied(index) <==> exists|at: LocalPosition|
                at.in_section() && at.y as int / 16 == index && #[trigger] self.spec_get(at)
                    != Block::Air,
    {
        if self.occupied(index) {
            let chunk = self@[index]->0;
            let slot = choose|slot: int| 0 <= slot < chunk@.len() && chunk@[slot] != Block::Air;
            let at = LocalPosition {
                x: (slot / 16 % 16) as u32,
                y: (16 * index + slot / 256) as u32,
                z: (slot % 16) as u32,
            };
            let local = LocalPosition { x: at.x, y: (at.y % 16) as u32, z: at.z };
            assert(local.slot() == slot);
            assert(self.spec_get(at) == chunk@[slot]);
        }
        if exists|at: LocalPosition|
            at.in_section() && at.y as int / 16 == index && #[trigger] self.spec_get(at)
                != Block::Air {
            let at = choose|at: LocalPosition|
                at.in_section() && at.y as int / 16 == index && #[trigger] self.spec_get(at)
                    != Block::Air;
            let chunk = self@[index]->0;
            let local = LocalPosition { x: at.x, y: (at.y % 16) as u32, z: at.z };
            assert(chunk@[local.slot()] != Block::Air);
        }
    }
}

impl Default for RawChunk {
    fn default() -> (chunk: Self)
        ensures
            chunk.inv(),
            chunk.spec_is_empty(),
    {
        RawChunk::new()
    }
}

impl Default for ChunkSection {
    fn default() -> (section: Self)
        ensures
            section.inv(),
            forall|i: int| 0 <= i < SECTION_SIZE ==> section@[i] is None,
    {
        ChunkSection::new()
    }
}

} // verus!
