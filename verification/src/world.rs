//! The streaming scheduler: as the origin moves it decides which columns
//! to generate, which chunks to mesh and which meshes to drop.

use crate::chunk::Chunk;
use crate::chunk_map::ChunkMap;
use crate::generator::Generate;
use crate::lists::{lemma_push_contains, lemma_without_all, lemma_without_members, without};
use crate::offsets::{
    generating_offsets, is_radial, is_radial_sections, precedes, section_precedes,
    visible_offsets, MAX_DISTANCE,
};
use crate::position::{BlockPosition, ChunkPosition, ChunkSectionPosition};
use std::collections::HashSet;
use vstd::prelude::*;
use vstd::std_specs::hash::*;

verus! {

broadcast use vstd::std_specs::hash::group_hash_axioms;

/// How far from the origin chunks are drawn along `x` and `z`.
pub const HORIZONTAL_RENDER_DISTANCE: i32 = 16;

/// How far from the origin chunks are drawn along `y`.
pub const VERTICAL_RENDER_DISTANCE: i32 = 10;

/// How far from the origin columns are generated: one further than they
/// are drawn, so that a chunk is meshed with its neighbours in place.
pub const GENERATION_DISTANCE: i32 = HORIZONTAL_RENDER_DISTANCE + 1;

/// The distances that a world is made with.
#[derive(Debug, Clone, Copy, PartialEq, Eq, Structural, Hash)]
pub struct WorldSettings {
    pub horizontal_render_distance: i32,
    pub vertical_render_distance: i32,
    pub generation_distance: i32,
}

impl WorldSettings {
    /// Whether each distance is one that a table can reach.
    pub open spec fn valid(&self) -> bool {
        &&& 0 <= self.horizontal_render_distance <= MAX_DISTANCE
        &&& 0 <= self.vertical_render_distance <= MAX_DISTANCE
        &&& 0 <= self.generation_distance <= MAX_DISTANCE
    }

    /// The settings with the given distances, unless one of them is
    /// negative or beyond `MAX_DISTANCE`.
    pub fn new(
        horizontal_render_distance: i32,
        vertical_render_distance: i32,
        generation_distance: i32,
    ) -> (settings: Option<Self>)
        ensures
            settings == if (WorldSettings {
                horizontal_render_distance,
                vertical_render_distance,
                generation_distance,
            }).valid() {
                Some(
                    WorldSettings {
                        horizontal_render_distance,
                        vertical_render_distance,
                        generation_distance,
                    },
                )
            } else {
                None
            },
    {
        if 0 <= horizontal_render_distance && horizontal_render_distance <= MAX_DISTANCE && 0
            <= vertical_render_distance && vertical_render_distance <= MAX_DISTANCE && 0
            <= generation_distance && generation_distance <= MAX_DISTANCE {
            Some(
                WorldSettings {
                    horizontal_render_distance,
                    vertical_render_distance,
                    generation_distance,
                },
            )
        } else {
            None
        }
    }
}

impl Default for WorldSettings {
    fn default() -> (settings: Self)
        ensures
            settings.valid(),
            settings == (WorldSettings {
                horizontal_render_distance: HORIZONTAL_RENDER_DISTANCE,
                vertical_render_distance: VERTICAL_RENDER_DISTANCE,
                generation_distance: GENERATION_DISTANCE,
            }),
    {
        WorldSettings {
            horizontal_render_distance: HORIZONTAL_RENDER_DISTANCE,
            vertical_render_distance: VERTICAL_RENDER_DISTANCE,
            generation_distance: GENERATION_DISTANCE,
        }
    }
}

/// What the scheduler asks of the meshing workers and of the mesh
/// registry after the origin moved.
#[derive(Debug)]
pub struct MeshPlan {
    /// The chunks to mesh, the nearest first.
    pub to_mesh: Vec<ChunkPosition>,
    /// The chunks whose meshes are dropped.
    pub to_evict: Vec<ChunkPosition>,
}

/// The columns at `offsets` from `origin`, in the order of `offsets`.
pub open spec fn sections_around(
    origin: ChunkSectionPosition,
    offsets: Seq<ChunkSectionPosition>,
) -> Seq<ChunkSectionPosition> {
    Seq::new(offsets.len(), |i: int| origin.spec_offset(offsets[i]))
}

/// The chunks at `offsets` from `origin`, in the order of `offsets`.
pub open spec fn chunks_around(origin: ChunkPosition, offsets: Seq<ChunkPosition>) -> Seq<
    ChunkPosition,
> {
    Seq::new(offsets.len(), |i: int| origin.spec_offset(offsets[i]))
}

/// Whether the chunk at `position` is meshed: the store holds it, and the
/// four columns beside its column have been generated, so that no
/// neighbour can still appear beside it.
pub open spec fn is_visible(
    store: Map<ChunkPosition, Chunk>,
    generated: Set<ChunkSectionPosition>,
    position: ChunkPosition,
) -> bool {
    &&& store.contains_key(position)
    &&& forall|side: int|
        0 <= side < 4 ==> generated.contains(
            #[trigger] position.spec_section().spec_adjacent()[side],
        )
}

/// The entries of `list` that are meshed, in their order.
pub open spec fn only_visible(
    list: Seq<ChunkPosition>,
    store: Map<ChunkPosition, Chunk>,
    generated: Set<ChunkSectionPosition>,
) -> Seq<ChunkPosition>
    decreases list.len(),
{
    if list.len() == 0 {
        Seq::empty()
    } else if is_visible(store, generated, list.last()) {
        only_visible(list.drop_last(), store, generated).push(list.last())
    } else {
        only_visible(list.drop_last(), store, generated)
    }
}

/// The state of the scheduler as contracts speak of it.
pub struct WorldModel {
    /// The distances that the world was made with.
    pub settings: WorldSettings,
    /// The chunk that held the camera when the world was last updated.
    pub previous_origin: ChunkPosition,
    /// The columns that have been handed to the generator.
    pub generated: Set<ChunkSectionPosition>,
    /// The chunks whose meshes are alive, the nearest to the previous
    /// origin first.
    pub meshed: Seq<ChunkPosition>,
    /// The table of the columns to generate.
    pub generating_offsets: Seq<ChunkSectionPosition>,
    /// The table of the chunks to mesh.
    pub visible_offsets: Seq<ChunkPosition>,
}

impl WorldModel {
    /// What holds of the state of every world: the tables are those of
    /// the settings, no chunk has two living meshes, and no more meshes
    /// are alive than the table of the chunks to mesh has entries.
    pub open spec fn inv(self) -> bool {
        &&& self.settings.valid()
        &&& is_radial_sections(self.generating_offsets, self.settings.generation_distance as int)
        &&& is_radial(
            self.visible_offsets,
            self.settings.horizontal_render_distance as int,
            self.settings.vertical_render_distance as int,
        )
        &&& self.meshed.len() <= self.visible_offsets.len()
        &&& self.meshed.no_duplicates()
    }

    /// The columns to generate when the origin is `origin`: those around
    /// it that have not been generated, the nearest first.
    pub open spec fn wanted(self, origin: ChunkPosition) -> Seq<ChunkSectionPosition> {
        without(sections_around(origin.spec_section(), self.generating_offsets), self.generated)
    }

    /// The chunks to keep meshed when the origin is `origin` and the store
    /// holds `store`, the nearest first.
    pub open spec fn visible(self, origin: ChunkPosition, store: Map<ChunkPosition, Chunk>) -> Seq<
        ChunkPosition,
    > {
        only_visible(chunks_around(origin, self.visible_offsets), store, self.generated)
    }

    /// The chunks to mesh: those to keep meshed whose mesh is not alive.
    pub open spec fn to_mesh(self, origin: ChunkPosition, store: Map<ChunkPosition, Chunk>) -> Seq<
        ChunkPosition,
    > {
        without(self.visible(origin, store), self.meshed.to_set())
    }

    /// The meshes to drop: those alive that are not kept.
    pub open spec fn to_evict(self, origin: ChunkPosition, store: Map<ChunkPosition, Chunk>) -> Seq<
        ChunkPosition,
    > {
        without(self.meshed, self.visible(origin, store).to_set())
    }

    /// The state after the columns wanted around `origin` were handed to
    /// the generator.
    pub open spec fn generating(self, origin: ChunkPosition) -> WorldModel {
        WorldModel { generated: self.generated.union(self.wanted(origin).to_set()), ..self }
    }

    /// The state after the meshes were brought in line with what is
    /// visible from `origin`.
    pub open spec fn showing(self, origin: ChunkPosition, store: Map<ChunkPosition, Chunk>) -> WorldModel {
        WorldModel { meshed: self.visible(origin, store), ..self }
    }
}

/// The streaming scheduler. It remembers where the camera was, which
/// columns were handed to the generator and which meshes are alive.
pub struct World {
    settings: WorldSettings,
    generated_sections: HashSet<u64>,
    previous_origin: ChunkPosition,
    meshed: Vec<ChunkPosition>,
    meshed_keys: HashSet<u128>,
    generating_offsets: Vec<ChunkSectionPosition>,
    visible_offsets: Vec<ChunkPosition>,
}

impl World {
    pub closed spec fn view(&self) -> WorldModel {
        WorldModel {
            settings: self.settings,
            previous_origin: self.previous_origin,
            generated: Set::new(
                |section: ChunkSectionPosition|
                    self.generated_sections@.contains(section.spec_key()),
            ),
            meshed: self.meshed@,
            generating_offsets: self.generating_offsets@,
            visible_offsets: self.visible_offsets@,
        }
    }

    /// What every constructor establishes and every method keeps.
    pub closed spec fn inv(&self) -> bool {
        &&& self@.inv()
        &&& forall|position: ChunkPosition|
            self.meshed_keys@.contains(#[trigger] position.spec_key()) <==> self.meshed@.contains(
                position,
            )
    }

    /// In every state of a world the tables are those of its settings, and
    /// no more meshes are alive than the table of the chunks to mesh has
    /// entries.
    pub proof fn lemma_meshes_bounded(&self)
        requires
            self.inv(),
        ensures
            self@.inv(),
            self@.meshed.len() <= self@.visible_offsets.len(),
            self@.meshed.no_duplicates(),
    {
    }

    /// A world in which nothing has been generated or meshed, with the
    /// camera taken to have been in the chunk at the zero position.
    pub fn new(settings: WorldSettings) -> (world: Self)
        requires
            settings.valid(),
        ensures
            world.inv(),
            world@.settings == settings,
            world@.previous_origin == (ChunkPosition { x: 0, y: 0, z: 0 }),
            world@.generated == Set::<ChunkSectionPosition>::empty(),
            world@.meshed == Seq::<ChunkPosition>::empty(),
    {
        let world = World {
            settings,
            generated_sections: HashSet::new(),
            previous_origin: ChunkPosition { x: 0, y: 0, z: 0 },
            meshed: Vec::new(),
            meshed_keys: HashSet::new(),
            generating_offsets: generating_offsets(settings.generation_distance),
            visible_offsets: visible_offsets(
                settings.horizontal_render_distance,
                settings.vertical_render_distance,
            ),
        };
        assert(world@.generated =~= Set::<ChunkSectionPosition>::empty());
        world
    }

    /// The distances that the world was made with.
    pub fn settings(&self) -> (settings: WorldSettings)
        ensures
            settings == self@.settings,
    {
        self.settings
    }

    /// The chunk that held the camera when the world was last updated.
    pub fn previous_origin(&self) -> (origin: ChunkPosition)
        ensures
            origin == self@.previous_origin,
    {
        self.previous_origin
    }

    /// The chunks whose meshes are alive, the nearest to the previous
    /// origin first.
    pub fn meshed(&self) -> (meshed: &[ChunkPosition])
        ensures
            meshed@ == self@.meshed,
    {
        self.meshed.as_slice()
    }

    /// The table of the columns to generate.
    pub fn generating_offsets(&self) -> (offsets: &[ChunkSectionPosition])
        ensures
            offsets@ == self@.generating_offsets,
    {
        self.generating_offsets.as_slice()
    }

    /// The table of the chunks to mesh.
    pub fn visible_offsets(&self) -> (offsets: &[ChunkPosition])
        ensures
            offsets@ == self@.visible_offsets,
    {
        self.visible_offsets.as_slice()
    }

    /// Whether the column at `section` has been handed to the generator.
    pub fn is_generated(&self, section: ChunkSectionPosition) -> (generated: bool)
        ensures
            generated == self@.generated.contains(section),
    {
        let key = section.key();
        self.generated_sections.contains(&key)
    }
}

/// The columns around an origin are all different, and each of them
/// exists.
proof fn lemma_sections_around(
    center: ChunkSectionPosition,
    offsets: Seq<ChunkSectionPosition>,
    distance: int,
    i: int,
    j: int,
)
    requires
        is_radial_sections(offsets, distance),
        0 <= distance <= MAX_DISTANCE,
        -0x0800_0000 <= center.x < 0x0800_0000,
        -0x0800_0000 <= center.z < 0x0800_0000,
        0 <= i <= j < offsets.len(),
    ensures
        center.can_offset(offsets[j]),
        -0x2000_0000 <= center.spec_offset(offsets[j]).x <= 0x2000_0000,
        -0x2000_0000 <= center.spec_offset(offsets[j]).z <= 0x2000_0000,
        i < j ==> sections_around(center, offsets)[i] != sections_around(center, offsets)[j],
{
    assert(offsets.contains(offsets[i]));
    assert(offsets.contains(offsets[j]));
    if i < j {
        assert(section_precedes(offsets[i], offsets[j]));
    }
}

impl World {
    /// The first half of the generation step: the columns around `origin`
    /// that have not been generated, the nearest first. They are marked as
    /// generated, so the caller owes the store their chunks.
    pub fn wanted_sections(&mut self, origin: ChunkPosition) -> (wanted: Vec<ChunkSectionPosition>)
        requires
            old(self).inv(),
            origin.is_origin(),
        ensures
            final(self).inv(),
            wanted@ == old(self)@.wanted(origin),
            final(self)@ == old(self)@.generating(origin),
    {
        let center = origin.section();
        let ghost candidates = sections_around(center, self.generating_offsets@);
        let ghost excluded = self@.generated;
        let mut generated: HashSet<u64> = HashSet::new();
        std::mem::swap(&mut generated, &mut self.generated_sections);
        let ghost before = generated@;
        let mut wanted: Vec<ChunkSectionPosition> = Vec::new();
        let mut index: usize = 0;
        while index < self.generating_offsets.len()
            invariant
                index <= self.generating_offsets@.len(),
                origin.is_origin(),
                center == origin.spec_section(),
                self.settings.valid(),
                is_radial_sections(
                    self.generating_offsets@,
                    self.settings.generation_distance as int,
                ),
                candidates == sections_around(center, self.generating_offsets@),
                excluded == Set::new(
                    |section: ChunkSectionPosition| before.contains(section.spec_key()),
                ),
                wanted@ == without(candidates.take(index as int), excluded),
                forall|section: ChunkSectionPosition|
                    generated@.contains(#[trigger] section.spec_key()) <==> before.contains(
                        section.spec_key(),
                    ) || wanted@.contains(section),
            decreases self.generating_offsets@.len() - index,
        {
            proof {
                lemma_sections_around(
                    center,
                    self.generating_offsets@,
                    self.settings.generation_distance as int,
                    index as int,
                    index as int,
                );
            }
            let position = center + self.generating_offsets[index];
            assert(position == candidates[index as int]);
            let key = position.key();
            let ghost listed = wanted@;
            proof {
                if listed.contains(position) {
                    lemma_without_members(candidates.take(index as int), excluded);
                    let j = choose|j: int|
                        0 <= j < candidates.take(index as int).len() && candidates.take(
                            index as int,
                        )[j] == position;
                    lemma_sections_around(
                        center,
                        self.generating_offsets@,
                        self.settings.generation_distance as int,
                        j,
                        index as int,
                    );
                }
                assert(!listed.contains(position));
                assert(generated@.contains(position.spec_key()) <==> before.contains(
                    position.spec_key(),
                ));
            }
            let fresh = generated.insert(key);
            if fresh {
                wanted.push(position);
            }
            proof {
                lemma_push_contains(listed, position);
                assert forall|section: ChunkSectionPosition|
                    section.spec_key() == position.spec_key() <==> section == position by {
                    section.lemma_key_injective(position);
                }
                assert(candidates.take(index + 1).drop_last() =~= candidates.take(index as int));
                assert(candidates.take(index + 1).last() == position);
            }
            index += 1;
        }
        std::mem::swap(&mut generated, &mut self.generated_sections);
        proof {
            assert(candidates.take(index as int) =~= candidates);
            assert(self@.generated =~= old(self)@.generated.union(wanted@.to_set()));
        }
        wanted
    }
}

/// Each chunk around an origin exists.
proof fn lemma_chunks_around(
    origin: ChunkPosition,
    offsets: Seq<ChunkPosition>,
    horizontal: int,
    vertical: int,
    i: int,
)
    requires
        is_radial(offsets, horizontal, vertical),
        0 <= horizontal <= MAX_DISTANCE,
        0 <= vertical <= MAX_DISTANCE,
        origin.is_origin(),
        0 <= i < offsets.len(),
    ensures
        origin.can_offset(offsets[i]),
        -0x2000_0000 <= origin.spec_offset(offsets[i]).x <= 0x2000_0000,
        -0x2000_0000 <= origin.spec_offset(offsets[i]).z <= 0x2000_0000,
{
    assert(offsets.contains(offsets[i]));
}

impl World {
    fn neighbors_generated(&self, section: ChunkSectionPosition) -> (generated: bool)
        requires
            i32::MIN < section.x < i32::MAX,
            i32::MIN < section.z < i32::MAX,
        ensures
            generated == forall|side: int|
                0 <= side < 4 ==> self@.generated.contains(#[trigger] section.spec_adjacent()[side]),
    {
        let adjacent = section.adjacent();
        let generated = self.is_generated(adjacent[0]) && self.is_generated(adjacent[1])
            && self.is_generated(adjacent[2]) && self.is_generated(adjacent[3]);
        proof {
            if generated {
                assert forall|side: int| 0 <= side < 4 implies self@.generated.contains(
                    #[trigger] section.spec_adjacent()[side],
                ) by {}
            }
        }
        generated
    }

    /// The visibility step: brings the meshes in line with what is visible
    /// from `origin`. The chunks that become visible are to be meshed, the
    /// nearest first; the meshes of those that are no longer visible are
    /// to be dropped.
    pub fn update_visible_chunks(&mut self, origin: ChunkPosition, store: &ChunkMap) -> (plan:
        MeshPlan)
        requires
            old(self).inv(),
            origin.is_origin(),
        ensures
            final(self).inv(),
            plan.to_mesh@ == old(self)@.to_mesh(origin, store@),
            plan.to_evict@ == old(self)@.to_evict(origin, store@),
            final(self)@ == old(self)@.showing(origin, store@),
    {
        let ghost candidates = chunks_around(origin, self.visible_offsets@);
        let ghost generated = self@.generated;
        let mut visible: Vec<ChunkPosition> = Vec::new();
        let mut visible_keys: HashSet<u128> = HashSet::new();
        let mut index: usize = 0;
        while index < self.visible_offsets.len()
            invariant
                index <= self.visible_offsets@.len(),
                origin.is_origin(),
                self.settings.valid(),
                is_radial(
                    self.visible_offsets@,
                    self.settings.horizontal_render_distance as int,
                    self.settings.vertical_render_distance as int,
                ),
                candidates == chunks_around(origin, self.visible_offsets@),
                generated == self@.generated,
                visible@ == only_visible(candidates.take(index as int), store@, generated),
                visible@.len() <= index,
                forall|position: ChunkPosition|
                    visible_keys@.contains(#[trigger] position.spec_key()) <==> visible@.contains(
                        position,
                    ),
            decreases self.visible_offsets@.len() - index,
        {
            proof {
                lemma_chunks_around(
                    origin,
                    self.visible_offsets@,
                    self.settings.horizontal_render_distance as int,
                    self.settings.vertical_render_distance as int,
                    index as int,
                );
            }
            let position = origin + self.visible_offsets[index];
            assert(position == candidates[index as int]);
            let ghost listed = visible@;
            if store.contains_key(&position) && self.neighbors_generated(position.section()) {
                visible.push(position);
                visible_keys.insert(position.key());
            }
            proof {
                lemma_push_contains(listed, position);
                assert forall|other: ChunkPosition|
                    other.spec_key() == position.spec_key() <==> other == position by {
                    other.lemma_key_injective(position);
                }
                assert(candidates.take(index + 1).drop_last() =~= candidates.take(index as int));
                assert(candidates.take(index + 1).last() == position);
            }
            index += 1;
        }
        assert(candidates.take(index as int) =~= candidates);
        let ghost alive = self.meshed@;
        let mut to_mesh: Vec<ChunkPosition> = Vec::new();
        let mut index: usize = 0;
        while index < visible.len()
            invariant
                index <= visible@.len(),
                alive == self.meshed@,
                forall|position: ChunkPosition|
                    self.meshed_keys@.contains(#[trigger] position.spec_key()) <==> alive.contains(
                        position,
                    ),
                to_mesh@ == without(visible@.take(index as int), alive.to_set()),
            decreases visible@.len() - index,
        {
            let position = visible[index];
            let key = position.key();
            if !self.meshed_keys.contains(&key) {
                to_mesh.push(position);
            }
            proof {
                assert(visible@.take(index + 1).drop_last() =~= visible@.take(index as int));
                assert(visible@.take(index + 1).last() == position);
            }
            index += 1;
        }
        assert(visible@.take(index as int) =~= visible@);
        let mut to_evict: Vec<ChunkPosition> = Vec::new();
        let mut index: usize = 0;
        while index < self.meshed.len()
            invariant
                index <= alive.len(),
                alive == self.meshed@,
                forall|position: ChunkPosition|
                    visible_keys@.contains(#[trigger] position.spec_key()) <==> visible@.contains(
                        position,
                    ),
                to_evict@ == without(alive.take(index as int), visible@.to_set()),
            decreases alive.len() - index,
        {
            let position = self.meshed[index];
            let key = position.key();
            if !visible_keys.contains(&key) {
                to_evict.push(position);
            }
            proof {
                assert(alive.take(index + 1).drop_last() =~= alive.take(index as int));
                assert(alive.take(index + 1).last() == position);
            }
            index += 1;
        }
        assert(alive.take(index as int) =~= alive);
        proof {
            lemma_visible_distinct(old(self)@, origin, store@);
        }
        self.meshed = visible;
        self.meshed_keys = visible_keys;
        MeshPlan { to_mesh, to_evict }
    }
}

impl WorldModel {
    /// The state after the camera was seen in the chunk at `origin`.
    pub open spec fn moved(self, origin: ChunkPosition) -> WorldModel {
        WorldModel { previous_origin: origin, ..self }
    }
}

/// Whether `after` holds, outside the columns `sections`, exactly what
/// `before` holds there, and still holds every chunk of `before`.
pub open spec fn grown_at(
    before: Map<ChunkPosition, Chunk>,
    after: Map<ChunkPosition, Chunk>,
    sections: Seq<ChunkSectionPosition>,
) -> bool {
    &&& forall|position: ChunkPosition| #[trigger]
        before.contains_key(position) ==> after.contains_key(position)
    &&& forall|position: ChunkPosition|
        !sections.contains(position.spec_section()) ==> (#[trigger] after.contains_key(position)
            <==> before.contains_key(position))
    &&& forall|position: ChunkPosition|
        !sections.contains(position.spec_section()) && #[trigger] after.contains_key(position)
            ==> after[position] == before[position]
}

impl World {
    /// The generation step: has `generator` make each column around
    /// `origin` that has not been generated, the nearest first, and puts
    /// the chunks of each that hold a block other than air into `store`.
    /// Whatever the generator makes, the store changes in those columns
    /// only and loses no chunk.
    pub fn update_chunks<G: Generate>(
        &mut self,
        origin: ChunkPosition,
        store: &mut ChunkMap,
        generator: &G,
    )
        requires
            old(self).inv(),
            old(store).inv(),
            origin.is_origin(),
        ensures
            final(self).inv(),
            final(store).inv(),
            final(self)@ == old(self)@.generating(origin),
            grown_at(old(store)@, final(store)@, old(self)@.wanted(origin)),
    {
        let wanted = self.wanted_sections(origin);
        let mut index: usize = 0;
        while index < wanted.len()
            invariant
                index <= wanted@.len(),
                store.inv(),
                grown_at(old(store)@, store@, wanted@.take(index as int)),
            decreases wanted@.len() - index,
        {
            let position = wanted[index];
            let section = generator.generate_section(position);
            store.insert_section(position, section);
            proof {
                lemma_push_contains(wanted@.take(index as int), position);
                assert(wanted@.take(index + 1) =~= wanted@.take(index as int).push(position));
            }
            index += 1;
        }
        assert(wanted@.take(index as int) =~= wanted@);
    }

    /// Notes where the camera is. While it stays in the chunk it was last
    /// seen in, `None` comes back; once it is in another chunk, that chunk
    /// is the new origin and comes back.
    pub fn observe(&mut self, camera: BlockPosition) -> (origin: Option<ChunkPosition>)
        requires
            old(self).inv(),
        ensures
            final(self).inv(),
            origin == if ChunkPosition::spec_containing(camera) == old(self)@.previous_origin {
                None
            } else {
                Some(ChunkPosition::spec_containing(camera))
            },
            final(self)@ == old(self)@.moved(ChunkPosition::spec_containing(camera)),
            origin matches Some(chunk) ==> chunk.is_origin(),
    {
        let origin = ChunkPosition::containing(camera);
        if origin == self.previous_origin {
            return None;
        }
        self.previous_origin = origin;
        Some(origin)
    }

    /// One frame of the scheduler, with the camera at the block `camera`.
    /// While the camera stays in the chunk it was last seen in, nothing
    /// happens and `None` comes back. Once it is in another chunk, the
    /// columns around it are generated and the meshes are brought in line
    /// with what is visible from there.
    pub fn update<G: Generate>(&mut self, camera: BlockPosition, store: &mut ChunkMap, generator: &G) -> (plan:
        Option<MeshPlan>)
        requires
            old(self).inv(),
            old(store).inv(),
        ensures
            final(self).inv(),
            final(store).inv(),
            ({
                let origin = ChunkPosition::spec_containing(camera);
                let generating = old(self)@.moved(origin).generating(origin);
                if origin == old(self)@.previous_origin {
                    &&& plan is None
                    &&& final(self)@ == old(self)@
                    &&& final(store)@ == old(store)@
                } else {
                    &&& plan matches Some(jobs)
                    &&& jobs.to_mesh@ == generating.to_mesh(origin, final(store)@)
                    &&& jobs.to_evict@ == generating.to_evict(origin, final(store)@)
                    &&& final(self)@ == generating.showing(origin, final(store)@)
                    &&& grown_at(old(store)@, final(store)@, old(self)@.wanted(origin))
                }
            }),
    {
        match self.observe(camera) {
            None => None,
            Some(origin) => {
                self.update_chunks(origin, store, generator);
                Some(self.update_visible_chunks(origin, store))
            },
        }
    }
}

/// However the origin moves and whatever the store holds, no more meshes
/// are kept alive than the table of the chunks to mesh has entries.
pub proof fn lemma_live_meshes_bounded(
    world: WorldModel,
    origin: ChunkPosition,
    store: Map<ChunkPosition, Chunk>,
)
    ensures
        world.visible(origin, store).len() <= world.visible_offsets.len(),
        world.showing(origin, store).meshed.len() <= world.visible_offsets.len(),
{
    lemma_only_visible_len(chunks_around(origin, world.visible_offsets), store, world.generated);
}

/// A camera that stays where it is leaves the scheduler nothing to do:
/// once a frame has been worked off at `origin`, the living meshes are
/// the visible chunks, and at the same origin no column is wanted, no
/// chunk is to be meshed and no mesh is to be dropped.
pub proof fn lemma_stationary_camera_settles(
    world: WorldModel,
    origin: ChunkPosition,
    store: Map<ChunkPosition, Chunk>,
)
    ensures
        ({
            let settled = world.generating(origin).showing(origin, store);
            &&& settled.meshed == settled.visible(origin, store)
            &&& settled.wanted(origin) == Seq::<ChunkSectionPosition>::empty()
            &&& settled.to_mesh(origin, store) == Seq::<ChunkPosition>::empty()
            &&& settled.to_evict(origin, store) == Seq::<ChunkPosition>::empty()
        }),
{
    let settled = world.generating(origin).showing(origin, store);
    let candidates = sections_around(origin.spec_section(), world.generating_offsets);
    lemma_without_members(candidates, world.generated);
    assert forall|i: int| 0 <= i < candidates.len() implies settled.generated.contains(
        #[trigger] candidates[i],
    ) by {
        assert(candidates.contains(candidates[i]));
    }
    lemma_without_all(candidates, settled.generated);
    let visible = settled.visible(origin, store);
    assert forall|i: int| 0 <= i < visible.len() implies visible.to_set().contains(
        #[trigger] visible[i],
    ) by {
        assert(visible.contains(visible[i]));
    }
    lemma_without_all(visible, visible.to_set());
}

/// What is meshed of a list is part of the list, and holds nothing twice
/// if the list holds nothing twice.
pub proof fn lemma_only_visible_part(
    list: Seq<ChunkPosition>,
    store: Map<ChunkPosition, Chunk>,
    generated: Set<ChunkSectionPosition>,
)
    ensures
        forall|position: ChunkPosition| #[trigger]
            only_visible(list, store, generated).contains(position) ==> list.contains(position),
        list.no_duplicates() ==> only_visible(list, store, generated).no_duplicates(),
    decreases list.len(),
{
    if list.len() > 0 {
        let rest = list.drop_last();
        let kept = only_visible(rest, store, generated);
        lemma_only_visible_part(rest, store, generated);
        lemma_push_contains(kept, list.last());
        assert forall|position: ChunkPosition| rest.contains(position) implies list.contains(
            position,
        ) by {
            let i = choose|i: int| 0 <= i < rest.len() && rest[i] == position;
            assert(list[i] == position);
        }
        assert(list.contains(list.last())) by {
            assert(list[list.len() - 1] == list.last());
        }
        if list.no_duplicates() {
            assert(rest.no_duplicates()) by {
                assert forall|i: int, j: int|
                    0 <= i < rest.len() && 0 <= j < rest.len() && i != j implies rest[i]
                    != rest[j] by {
                    assert(rest[i] == list[i] && rest[j] == list[j]);
                }
            }
            if kept.contains(list.last()) {
                let i = choose|i: int| 0 <= i < rest.len() && rest[i] == list.last();
                assert(list[i] == list[list.len() - 1]);
            }
            assert(kept.push(list.last()).no_duplicates()) by {
                assert forall|i: int, j: int|
                    0 <= i < kept.len() + 1 && 0 <= j < kept.len() + 1 && i != j implies kept.push(
                    list.last(),
                )[i] != kept.push(list.last())[j] by {
                    if i < kept.len() {
                        assert(kept.contains(kept[i]));
                    }
                    if j < kept.len() {
                        assert(kept.contains(kept[j]));
                    }
                }
            }
        }
    }
}

/// Seen from one origin, the chunks to keep meshed are all different.
pub proof fn lemma_visible_distinct(
    world: WorldModel,
    origin: ChunkPosition,
    store: Map<ChunkPosition, Chunk>,
)
    requires
        world.inv(),
        origin.is_origin(),
    ensures
        world.visible(origin, store).no_duplicates(),
{
    let offsets = world.visible_offsets;
    let candidates = chunks_around(origin, offsets);
    assert forall|i: int, j: int|
        0 <= i < candidates.len() && 0 <= j < candidates.len() && i != j implies candidates[i]
        != candidates[j] by {
        lemma_chunks_around(
            origin,
            offsets,
            world.settings.horizontal_render_distance as int,
            world.settings.vertical_render_distance as int,
            i,
        );
        lemma_chunks_around(
            origin,
            offsets,
            world.settings.horizontal_render_distance as int,
            world.settings.vertical_render_distance as int,
            j,
        );
        if i < j {
            assert(precedes(offsets[i], offsets[j]));
        } else {
            assert(precedes(offsets[j], offsets[i]));
        }
    }
    lemma_only_visible_part(candidates, store, world.generated);
}

/// Nothing that is meshed is added by looking at more of the list.
pub proof fn lemma_only_visible_len(
    list: Seq<ChunkPosition>,
    store: Map<ChunkPosition, Chunk>,
    generated: Set<ChunkSectionPosition>,
)
    ensures
        only_visible(list, store, generated).len() <= list.len(),
    decreases list.len(),
{
    if list.len() > 0 {
        lemma_only_visible_len(list.drop_last(), store, generated);
    }
}

} // verus!
