//! What the render thread keeps of each meshed chunk, and the registry of
//! the meshes that are alive.

use crate::lists::lemma_push_contains;
use crate::meshes::RawMesh;
use crate::position::ChunkPosition;
use std::collections::{HashMap, HashSet};
use vstd::prelude::*;
use vstd::relations::injective_on;
use vstd::set_lib::{lemma_len_subset, lemma_map_size};
use vstd::std_specs::hash::*;
use vstd::std_specs::iter::IteratorSpec;

verus! {

broadcast use vstd::std_specs::hash::group_hash_axioms;

/// A box of blocks along the axes of the world, by its lowest and its
/// highest block.
#[derive(Debug, Clone, Copy)]
pub struct AABB {
    pub min: (i64, i64, i64),
    pub max: (i64, i64, i64),
}

/// Whether a box with these corners is not wholly behind a plane:
/// `corners_before` says of each corner whether it lies on or before the
/// plane.
pub open spec fn before_plane(corners_before: Seq<bool>) -> bool {
    exists|corner: int| 0 <= corner < corners_before.len() && corners_before[corner]
}

impl AABB {
    pub fn new(min: (i64, i64, i64), max: (i64, i64, i64)) -> (aabb: Self)
        ensures
            aabb == (AABB { min, max }),
    {
        AABB { min, max }
    }

    /// The box of the chunk at `position`: from the block at 16 times the
    /// position to the block 15 further along each axis.
    pub open spec fn spec_of_chunk(position: ChunkPosition) -> AABB {
        AABB {
            min: ((16 * position.x) as i64, (16 * position.y) as i64, (16 * position.z) as i64),
            max: (
                (16 * position.x + 15) as i64,
                (16 * position.y + 15) as i64,
                (16 * position.z + 15) as i64,
            ),
        }
    }

    pub fn of_chunk(position: ChunkPosition) -> (aabb: Self)
        ensures
            aabb == Self::spec_of_chunk(position),
    {
        let x: i64 = position.x as i64 * 16;
        let y: i64 = position.y as i64 * 16;
        let z: i64 = position.z as i64 * 16;
        AABB { min: (x, y, z), max: (x + 15, y + 15, z + 15) }
    }

    /// The eight corners of the box: `x` changes fastest, then `y`, then
    /// `z`, each from the lowest to the highest.
    pub open spec fn spec_corners(&self) -> Seq<(i64, i64, i64)> {
        Seq::new(
            8,
            |corner: int|
                (
                    if corner % 2 == 0 {
                        self.min.0
                    } else {
                        self.max.0
                    },
                    if corner / 2 % 2 == 0 {
                        self.min.1
                    } else {
                        self.max.1
                    },
                    if corner / 4 == 0 {
                        self.min.2
                    } else {
                        self.max.2
                    },
                ),
        )
    }

    pub fn corners(&self) -> (corners: [(i64, i64, i64); 8])
        ensures
            corners@ == self.spec_corners(),
    {
        let corners = [
            self.min,
            (self.max.0, self.min.1, self.min.2),
            (self.min.0, self.max.1, self.min.2),
            (self.max.0, self.max.1, self.min.2),
            (self.min.0, self.min.1, self.max.2),
            (self.max.0, self.min.1, self.max.2),
            (self.min.0, self.max.1, self.max.2),
            self.max,
        ];
        assert(corners@ =~= self.spec_corners());
        corners
    }

    /// Whether a box passes a plane, given for each of its corners whether
    /// the corner lies on or before the plane: the box is outside only if
    /// every corner lies behind it.
    pub fn is_on_plane(corners_before: &[bool; 8]) -> (passes: bool)
        ensures
            passes == before_plane(corners_before@),
    {
        let first = corners_before[0];
        let mut corner: usize = 1;
        while corner < 8
            invariant
                1 <= corner <= 8,
                first == corners_before@[0],
                forall|seen: int| 0 <= seen < corner ==> corners_before@[seen] == first,
            decreases 8 - corner,
        {
            if corners_before[corner] != first {
                assert(corners_before@[0] || corners_before@[corner as int]);
                return true;
            }
            corner += 1;
        }
        assert(first ==> corners_before@[0]);
        first
    }

    /// Whether a box passes a frustum, given for each of the six planes
    /// and each corner whether the corner lies on or before the plane: it
    /// passes if it passes every plane.
    pub fn is_on_frustum(corners_before: &[[bool; 8]; 6]) -> (passes: bool)
        ensures
            passes == forall|plane: int|
                0 <= plane < 6 ==> before_plane(#[trigger] corners_before@[plane]@),
    {
        let mut plane: usize = 0;
        while plane < 6
            invariant
                plane <= 6,
                forall|seen: int|
                    0 <= seen < plane ==> before_plane(#[trigger] corners_before@[seen]@),
            decreases 6 - plane,
        {
            if !AABB::is_on_plane(&corners_before[plane]) {
                return false;
            }
            plane += 1;
        }
        true
    }
}

/// A mesh that was uploaded: the buffers that came back from the upload,
/// the number of indices to draw, the chunk coordinate that moves the
/// mesh to its place, and the box that is tested against the frustum.
#[derive(Debug)]
pub struct ChunkBuffer<B> {
    pub buffers: B,
    pub indices_len: u32,
    pub transformation: ChunkPosition,
    pub aabb: AABB,
}

impl<B> ChunkBuffer<B> {
    /// Describes the upload `buffers` of `mesh` for the chunk at
    /// `transformation`. A mesh without faces is not drawn and gets no
    /// buffer.
    pub fn from_mesh(mesh: &RawMesh, transformation: ChunkPosition, buffers: B) -> (buffer: Option<
        Self,
    >)
        requires
            mesh.inv(),
        ensures
            buffer is Some <==> mesh.spec_quads() > 0,
            buffer matches Some(made) ==> made == (ChunkBuffer {
                buffers,
                indices_len: (6 * mesh.spec_quads()) as u32,
                transformation,
                aabb: AABB::spec_of_chunk(transformation),
            }),
    {
        if mesh.is_empty() {
            return None;
        }
        let indices_len: u32 = mesh.quads() as u32 * 6;
        Some(ChunkBuffer { buffers, indices_len, transformation, aabb: AABB::of_chunk(transformation) })
    }
}

/// What a meshing worker or the scheduler tells the registry.
#[derive(Debug)]
pub enum MeshResult<B> {
    /// The mesh of the chunk at `position` was built and uploaded.
    Insert { position: ChunkPosition, buffer: ChunkBuffer<B> },
    /// The chunk at `position` is no longer visible.
    Evict { position: ChunkPosition },
}

/// What the registry holds after `result` was applied to `meshes`: an
/// insert puts the buffer in place of what was there, an eviction drops
/// what is there.
pub open spec fn applied<B>(
    meshes: Map<ChunkPosition, ChunkBuffer<B>>,
    result: MeshResult<B>,
) -> Map<ChunkPosition, ChunkBuffer<B>> {
    match result {
        MeshResult::Insert { position, buffer } => meshes.insert(position, buffer),
        MeshResult::Evict { position } => meshes.remove(position),
    }
}

/// The registry of the meshes that are alive, by chunk coordinate.
pub struct Meshes<B> {
    generated: HashMap<u128, ChunkBuffer<B>>,
}

impl<B> Meshes<B> {
    /// The living meshes by position.
    pub closed spec fn view(&self) -> Map<ChunkPosition, ChunkBuffer<B>> {
        Map::new(
            |position: ChunkPosition| self.generated@.contains_key(position.spec_key()),
            |position: ChunkPosition| self.generated@[position.spec_key()],
        )
    }

    /// What every constructor establishes and every method keeps: each
    /// mesh is kept under the key of a position.
    pub closed spec fn inv(&self) -> bool {
        forall|key: u128| #[trigger]
            self.generated@.contains_key(key) ==> ChunkPosition::spec_from_key(key).spec_key()
                == key
    }

    /// A registry without meshes.
    pub fn new() -> (meshes: Self)
        ensures
            meshes.inv(),
            meshes@ == Map::<ChunkPosition, ChunkBuffer<B>>::empty(),
    {
        let meshes = Meshes { generated: HashMap::new() };
        assert(meshes@ =~= Map::<ChunkPosition, ChunkBuffer<B>>::empty());
        meshes
    }

    /// Keeps `buffer` as the mesh of the chunk at `position`, in place of
    /// the mesh that was kept for it.
    pub fn upsert(&mut self, position: ChunkPosition, buffer: ChunkBuffer<B>)
        requires
            old(self).inv(),
        ensures
            final(self).inv(),
            final(self)@ == old(self)@.insert(position, buffer),
    {
        let key = position.key();
        proof {
            position.lemma_key_round_trip();
        }
        self.generated.insert(key, buffer);
        assert(self@ =~= old(self)@.insert(position, buffer)) by {
            assert forall|other: ChunkPosition|
                other.spec_key() == position.spec_key() <==> other == position by {
                other.lemma_key_injective(position);
            }
        }
    }

    /// Drops the mesh of the chunk at `position` and hands it back, if
    /// there is one.
    pub fn evict(&mut self, position: ChunkPosition) -> (dropped: Option<ChunkBuffer<B>>)
        requires
            old(self).inv(),
        ensures
            final(self).inv(),
            final(self)@ == old(self)@.remove(position),
            dropped == if old(self)@.contains_key(position) {
                Some(old(self)@[position])
            } else {
                None
            },
    {
        let key = position.key();
        let dropped = self.generated.remove(&key);
        assert(self@ =~= old(self)@.remove(position)) by {
            assert forall|other: ChunkPosition|
                other.spec_key() == position.spec_key() <==> other == position by {
                other.lemma_key_injective(position);
            }
        }
        dropped
    }

    /// Applies one message: an insert is an `upsert`, an eviction an
    /// `evict`.
    pub fn apply(&mut self, result: MeshResult<B>)
        requires
            old(self).inv(),
        ensures
            final(self).inv(),
            final(self)@ == applied(old(self)@, result),
    {
        match result {
            MeshResult::Insert { position, buffer } => {
                self.upsert(position, buffer);
            },
            MeshResult::Evict { position } => {
                self.evict(position);
            },
        }
    }

    /// The mesh of the chunk at `position`, if one is alive.
    pub fn get(&self, position: &ChunkPosition) -> (buffer: Option<&ChunkBuffer<B>>)
        ensures
            buffer is Some == self@.contains_key(*position),
            buffer matches Some(found) ==> *found == self@[*position],
    {
        let key = position.key();
        self.generated.get(&key)
    }

    /// Whether the chunk at `position` has a living mesh.
    pub fn contains_key(&self, position: &ChunkPosition) -> (found: bool)
        ensures
            found == self@.contains_key(*position),
    {
        let key = position.key();
        self.generated.contains_key(&key)
    }

    /// The positions of the living meshes, each once, in no particular
    /// order.
    pub fn positions(&self) -> (positions: Vec<ChunkPosition>)
        requires
            self.inv(),
        ensures
            positions@.no_duplicates(),
            forall|position: ChunkPosition| #[trigger]
                positions@.contains(position) <==> self@.contains_key(position),
    {
        let mut positions: Vec<ChunkPosition> = Vec::new();
        let ghost keys = spec_keys_iter(&self.generated).remaining();
        for key in iter: self.generated.keys()
            invariant
                iter.seq() == keys,
                positions@.len() == iter.index(),
                forall|i: int|
                    0 <= i < positions@.len() ==> #[trigger] positions@[i]
                        == ChunkPosition::spec_from_key(*keys[i]),
        {
            positions.push(ChunkPosition::from_key(*key));
        }
        proof {
            assert(keys.unref().to_set() == self.generated@.dom());
            assert forall|i: int| 0 <= i < keys.len() implies self.generated@.contains_key(
                *#[trigger] keys[i],
            ) by {
                assert(keys.unref()[i] == *keys[i]);
                assert(keys.unref().to_set().contains(keys.unref()[i]));
            }
            assert forall|i: int, j: int|
                0 <= i < positions@.len() && 0 <= j < positions@.len() && i != j implies positions@[i]
                != positions@[j] by {
                assert(keys[i] != keys[j]);
                assert(self.generated@.contains_key(*keys[i]));
                assert(self.generated@.contains_key(*keys[j]));
            }
            assert forall|position: ChunkPosition| #[trigger]
                positions@.contains(position) <==> self@.contains_key(position) by {
                if positions@.contains(position) {
                    let i = choose|i: int| 0 <= i < positions@.len() && positions@[i] == position;
                    assert(self.generated@.contains_key(*keys[i]));
                }
                if self@.contains_key(position) {
                    assert(keys.unref().to_set().contains(position.spec_key()));
                    let i = choose|i: int|
                        0 <= i < keys.unref().len() && keys.unref()[i] == position.spec_key();
                    position.lemma_key_round_trip();
                    assert(positions@[i] == position);
                }
            }
        }
        positions
    }
}

impl<B> Meshes<B> {
    /// The number of living meshes.
    pub fn len(&self) -> (len: usize)
        requires
            self.inv(),
        ensures
            self@.dom().finite(),
            len == self@.dom().len(),
    {
        proof {
            let keys = self.generated@.dom();
            let position_of = |key: u128| ChunkPosition::spec_from_key(key);
            assert(injective_on(position_of, keys)) by {
                assert forall|first: u128, second: u128|
                    keys.contains(first) && keys.contains(second) && position_of(first)
                        == position_of(second) implies first == second by {
                    assert(self.generated@.contains_key(first));
                    assert(self.generated@.contains_key(second));
                }
            }
            assert(keys.map(position_of) =~= self@.dom()) by {
                assert forall|position: ChunkPosition|
                    keys.map(position_of).contains(position) <==> self@.dom().contains(
                        position,
                    ) by {
                    if keys.map(position_of).contains(position) {
                        let key = choose|key: u128|
                            keys.contains(key) && position_of(key) == position;
                        assert(self.generated@.contains_key(key));
                    }
                    if self@.dom().contains(position) {
                        position.lemma_key_round_trip();
                        assert(keys.contains(position.spec_key()));
                        assert(position_of(position.spec_key()) == position);
                    }
                }
            }
            lemma_map_size(keys, self@.dom(), position_of);
        }
        self.generated.len()
    }

    /// Drops every mesh whose chunk is not one of `keep`, and leaves the
    /// others as they are.
    pub fn retain(&mut self, keep: &[ChunkPosition])
        requires
            old(self).inv(),
        ensures
            final(self).inv(),
            final(self)@ == old(self)@.restrict(keep@.to_set()),
    {
        let mut kept: HashSet<u128> = HashSet::new();
        let mut index: usize = 0;
        while index < keep.len()
            invariant
                index <= keep@.len(),
                forall|position: ChunkPosition|
                    kept@.contains(#[trigger] position.spec_key()) <==> keep@.take(
                        index as int,
                    ).contains(position),
            decreases keep@.len() - index,
        {
            let position = keep[index];
            kept.insert(position.key());
            proof {
                let seen = keep@.take(index as int);
                assert(keep@.take(index + 1) =~= seen.push(position));
                lemma_push_contains(seen, position);
                assert forall|other: ChunkPosition|
                    other.spec_key() == position.spec_key() <==> other == position by {
                    other.lemma_key_injective(position);
                }
            }
            index += 1;
        }
        assert(keep@.take(index as int) =~= keep@);
        let positions = self.positions();
        let mut index: usize = 0;
        while index < positions.len()
            invariant
                index <= positions@.len(),
                self.inv(),
                forall|position: ChunkPosition|
                    kept@.contains(#[trigger] position.spec_key()) <==> keep@.contains(position),
                forall|position: ChunkPosition| #[trigger]
                    positions@.contains(position) <==> old(self)@.contains_key(position),
                forall|position: ChunkPosition| #[trigger]
                    self@.contains_key(position) <==> old(self)@.contains_key(position) && (
                    keep@.contains(position) || !positions@.take(index as int).contains(position)),
                forall|position: ChunkPosition| #[trigger]
                    self@.contains_key(position) ==> self@[position] == old(self)@[position],
            decreases positions@.len() - index,
        {
            let position = positions[index];
            let key = position.key();
            if !kept.contains(&key) {
                self.evict(position);
            }
            proof {
                let seen = positions@.take(index as int);
                assert(positions@.take(index + 1) =~= seen.push(position));
                lemma_push_contains(seen, position);
            }
            index += 1;
        }
        proof {
            assert(positions@.take(index as int) =~= positions@);
            assert(self@ =~= old(self)@.restrict(keep@.to_set()));
        }
    }
}

/// A registry whose meshes all belong to chunks of `keep` holds no more
/// meshes than `keep` has entries.
pub proof fn lemma_retained_meshes_bounded<B>(
    meshes: Map<ChunkPosition, ChunkBuffer<B>>,
    keep: Seq<ChunkPosition>,
)
    requires
        forall|position: ChunkPosition| #[trigger]
            meshes.contains_key(position) ==> keep.contains(position),
    ensures
        meshes.dom().finite(),
        meshes.dom().len() <= keep.len(),
{
    broadcast use vstd::seq_lib::seq_to_set_is_finite;

    keep.lemma_cardinality_of_set();
    assert(meshes.dom().subset_of(keep.to_set()));
    lemma_len_subset(meshes.dom(), keep.to_set());
}

impl<B> Default for Meshes<B> {
    fn default() -> (meshes: Self)
        ensures
            meshes.inv(),
            meshes@ == Map::<ChunkPosition, ChunkBuffer<B>>::empty(),
    {
        Meshes::new()
    }
}

} // verus!
