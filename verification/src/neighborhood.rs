//! The window that the mesher reads: a chunk and the six chunks that share
//! a face with it.

use crate::block::Block;
use crate::chunk::{Chunk, ChunkOrAir};
use crate::chunk_map::ChunkMap;
use crate::position::{ChunkPosition, LocalPosition};
use vstd::prelude::*;

verus! {

/// Largest coordinate of the padded window.
pub const PADDED_MAX: u32 = 17;

/// Which chunk a padded coordinate falls into along one axis: `-1` for the
/// chunk before the centre, `1` for the chunk after it, `0` for the centre.
pub open spec fn shift(padded: u32) -> int {
    if padded == 0 {
        -1
    } else if padded == PADDED_MAX {
        1
    } else {
        0
    }
}

/// `1` where a padded coordinate falls outside the centre chunk, else `0`.
pub open spec fn on_edge(padded: u32) -> int {
    if padded == 0 || padded == PADDED_MAX {
        1
    } else {
        0
    }
}

/// The coordinate inside the chunk that a padded coordinate falls into.
pub open spec fn inside(padded: u32) -> u32 {
    if padded == 0 {
        15
    } else if padded == PADDED_MAX {
        0
    } else {
        (padded - 1) as u32
    }
}

impl LocalPosition {
    /// Whether the padded position lies in the centre chunk.
    pub open spec fn in_center(self) -> bool {
        1 <= self.x <= 16 && 1 <= self.y <= 16 && 1 <= self.z <= 16
    }

    /// Whether the padded position lies in the centre chunk or on the face
    /// of a neighbour that touches it: within the window, and outside the
    /// centre on one axis at most.
    pub open spec fn in_window(self) -> bool {
        &&& self.x <= PADDED_MAX && self.y <= PADDED_MAX && self.z <= PADDED_MAX
        &&& on_edge(self.x) + on_edge(self.y) + on_edge(self.z) <= 1
    }

    /// The position inside its chunk of a padded position.
    pub open spec fn unpadded(self) -> LocalPosition {
        LocalPosition { x: inside(self.x), y: inside(self.y), z: inside(self.z) }
    }
}

/// The block of `store` at `local` in the chunk at `(x, y, z)`; air where
/// the store has no such chunk.
pub open spec fn stored_block(
    store: Map<ChunkPosition, Chunk>,
    x: int,
    y: int,
    z: int,
    local: LocalPosition,
) -> Block {
    let at = ChunkPosition { x: x as i32, y: y as i32, z: z as i32 };
    if i32::MIN <= x <= i32::MAX && i32::MIN <= y <= i32::MAX && i32::MIN <= z <= i32::MAX
        && store.contains_key(at) {
        store[at].spec_get(local)
    } else {
        Block::Air
    }
}

/// What the window around `center` shows at the padded position `padded`:
/// coordinates `1..=16` show the centre chunk, `0` and `17` the touching
/// layer of the neighbour on that side, and everything else is air.
pub open spec fn padded_block(
    store: Map<ChunkPosition, Chunk>,
    center: ChunkPosition,
    padded: LocalPosition,
) -> Block {
    if padded.in_window() {
        stored_block(
            store,
            center.x + shift(padded.x),
            center.y + shift(padded.y),
            center.z + shift(padded.z),
            padded.unpadded(),
        )
    } else {
        Block::Air
    }
}

/// A read view onto a chunk and its six face neighbours.
#[derive(Clone, Copy)]
pub struct ChunkNeighborhood<'s> {
    center: ChunkPosition,
    chunk: ChunkOrAir<'s>,
    east: ChunkOrAir<'s>,
    west: ChunkOrAir<'s>,
    above: ChunkOrAir<'s>,
    below: ChunkOrAir<'s>,
    south: ChunkOrAir<'s>,
    north: ChunkOrAir<'s>,
}

fn chunk_beside<'s>(chunks: &'s ChunkMap, center: ChunkPosition, offset: (i32, i32, i32)) -> (chunk:
    ChunkOrAir<'s>)
    requires
        chunks.inv(),
    ensures
        chunk.inv(),
        forall|local: LocalPosition| #[trigger]
            chunk.spec_get(local) == stored_block(
                chunks@,
                center.x + offset.0,
                center.y + offset.1,
                center.z + offset.2,
                local,
            ),
{
    match (
        center.x.checked_add(offset.0),
        center.y.checked_add(offset.1),
        center.z.checked_add(offset.2),
    ) {
        (Some(x), Some(y), Some(z)) => chunks.chunk_at(&ChunkPosition { x, y, z }),
        _ => ChunkOrAir::air(),
    }
}

impl<'s> ChunkNeighborhood<'s> {
    /// What every constructor establishes: each chunk in view is a proper
    /// chunk.
    pub closed spec fn inv(&self) -> bool {
        &&& self.chunk.inv()
        &&& self.east.inv()
        &&& self.west.inv()
        &&& self.above.inv()
        &&& self.below.inv()
        &&& self.south.inv()
        &&& self.north.inv()
    }

    pub closed spec fn spec_center(&self) -> ChunkPosition {
        self.center
    }

    /// The chunk in view on the side that `padded` falls on; only read for
    /// positions in the window.
    closed spec fn side(&self, padded: LocalPosition) -> ChunkOrAir<'s> {
        if padded.x == PADDED_MAX {
            self.east
        } else if padded.x == 0 {
            self.west
        } else if padded.y == PADDED_MAX {
            self.above
        } else if padded.y == 0 {
            self.below
        } else if padded.z == PADDED_MAX {
            self.south
        } else if padded.z == 0 {
            self.north
        } else {
            self.chunk
        }
    }

    /// The block that the window shows at `padded`.
    pub closed spec fn spec_get(&self, padded: LocalPosition) -> Block {
        if padded.in_window() {
            self.side(padded).spec_get(padded.unpadded())
        } else {
            Block::Air
        }
    }

    /// Looks up the chunk at `center` and its six face neighbours. A chunk
    /// that the store does not hold, or whose coordinate does not exist,
    /// reads as air.
    pub fn new(chunks: &'s ChunkMap, center: ChunkPosition) -> (neighborhood: Self)
        requires
            chunks.inv(),
        ensures
            neighborhood.inv(),
            neighborhood.spec_center() == center,
            forall|padded: LocalPosition| #[trigger]
                neighborhood.spec_get(padded) == padded_block(chunks@, center, padded),
    {
        ChunkNeighborhood {
            center,
            chunk: chunk_beside(chunks, center, (0, 0, 0)),
            east: chunk_beside(chunks, center, (1, 0, 0)),
            west: chunk_beside(chunks, center, (-1, 0, 0)),
            above: chunk_beside(chunks, center, (0, 1, 0)),
            below: chunk_beside(chunks, center, (0, -1, 0)),
            south: chunk_beside(chunks, center, (0, 0, 1)),
            north: chunk_beside(chunks, center, (0, 0, -1)),
        }
    }

    /// The block at the padded position `padded`. Every position has one:
    /// outside the window it is air.
    pub fn get(&self, padded: LocalPosition) -> (block: Block)
        requires
            self.inv(),
        ensures
            block == self.spec_get(padded),
            !padded.in_window() ==> block == Block::Air,
    {
        let x = padded.x;
        let y = padded.y;
        let z = padded.z;
        let in_x = 1 <= x && x <= 16;
        let in_y = 1 <= y && y <= 16;
        let in_z = 1 <= z && z <= 16;
        if in_x && in_y && in_z {
            self.chunk.get(LocalPosition { x: x - 1, y: y - 1, z: z - 1 })
        } else if x == PADDED_MAX && in_y && in_z {
            self.east.get(LocalPosition { x: 0, y: y - 1, z: z - 1 })
        } else if x == 0 && in_y && in_z {
            self.west.get(LocalPosition { x: 15, y: y - 1, z: z - 1 })
        } else if in_x && y == PADDED_MAX && in_z {
            self.above.get(LocalPosition { x: x - 1, y: 0, z: z - 1 })
        } else if in_x && y == 0 && in_z {
            self.below.get(LocalPosition { x: x - 1, y: 15, z: z - 1 })
        } else if in_x && in_y && z == PADDED_MAX {
            self.south.get(LocalPosition { x: x - 1, y: y - 1, z: 0 })
        } else if in_x && in_y && z == 0 {
            self.north.get(LocalPosition { x: x - 1, y: y - 1, z: 15 })
        } else {
            Block::Air
        }
    }

    /// The coordinate of the chunk in the middle of the window.
    #[verifier::when_used_as_spec(spec_center)]
    pub fn center(&self) -> (center: ChunkPosition)
        ensures
            center == self.spec_center(),
    {
        self.center
    }
}

} // verus!
