use voxel::chunk::ChunkSection;
use voxel::chunk_map::ChunkMap;
use voxel::generator::{section_from_columns, Biome, Column, Generate};
use voxel::meshes::RawMesh;
use voxel::offsets::{generating_offsets, visible_offsets};
use voxel::position::{BlockPosition, ChunkPosition, ChunkSectionPosition};
use voxel::registry::{ChunkBuffer, MeshResult, Meshes, AABB};
use voxel::world::{
    World, WorldSettings, GENERATION_DISTANCE, HORIZONTAL_RENDER_DISTANCE,
    VERTICAL_RENDER_DISTANCE,
};
use voxel::atlas::{TextureAtlasUniform, TILE_SIZE};
use voxel::block::Block;
use voxel::face::{Direction, Face};
use voxel::position::LocalPosition;

struct Flat;

impl Generate for Flat {
    fn generate_section(&self, _position: ChunkSectionPosition) -> ChunkSection {
        section_from_columns(&vec![Column::new(24, Biome::Plains); 256])
    }
}

struct Void;

impl Generate for Void {
    fn generate_section(&self, _position: ChunkSectionPosition) -> ChunkSection {
        ChunkSection::new()
    }
}

fn small_world() -> World {
    World::new(WorldSettings::new(2, 1, 3).unwrap())
}

fn one_face_mesh() -> RawMesh {
    let mut mesh = RawMesh::new();
    mesh.push_face(Face::new(
        Block::Stone,
        LocalPosition::new(0, 0, 0),
        [3, 3, 3, 3],
        Direction::Top,
    ));
    mesh
}

#[test]
fn settings_are_checked() {
    let default = WorldSettings::default();
    assert_eq!(default.horizontal_render_distance, 16);
    assert_eq!(default.vertical_render_distance, 10);
    assert_eq!(default.generation_distance, 17);
    assert_eq!(HORIZONTAL_RENDER_DISTANCE, 16);
    assert_eq!(VERTICAL_RENDER_DISTANCE, 10);
    assert_eq!(GENERATION_DISTANCE, 17);
    assert_eq!(WorldSettings::new(16, 10, 17), Some(default));
    assert_eq!(WorldSettings::new(-1, 10, 17), None);
    assert_eq!(WorldSettings::new(16, -1, 17), None);
    assert_eq!(WorldSettings::new(16, 10, 0x1000_0001), None);
    assert!(WorldSettings::new(0, 0, 0).is_some());
    assert!(WorldSettings::new(0x1000_0000, 0, 0).is_some());
}

#[test]
fn tables_start_at_the_origin_and_go_outwards() {
    let chunks = visible_offsets(1, 1);
    assert_eq!(chunks.len(), 27);
    assert_eq!(chunks[0], ChunkPosition::new(0, 0, 0));
    for pair in chunks.windows(2) {
        assert!(pair[0].length_squared() <= pair[1].length_squared());
    }
    let sections = generating_offsets(2);
    assert_eq!(sections.len(), 25);
    assert_eq!(sections[0], ChunkSectionPosition::new(0, 0));
    for pair in sections.windows(2) {
        assert!(pair[0].length_squared() <= pair[1].length_squared());
    }
}

#[test]
fn table_of_distance_one_in_full() {
    let sections: Vec<(i32, i32)> = generating_offsets(1)
        .into_iter()
        .map(|section| (section.x, section.z))
        .collect();
    assert_eq!(
        sections,
        vec![
            (0, 0),
            (-1, 0),
            (0, -1),
            (0, 1),
            (1, 0),
            (-1, -1),
            (-1, 1),
            (1, -1),
            (1, 1),
        ]
    );
    let chunks: Vec<(i32, i32, i32)> = visible_offsets(0, 1)
        .into_iter()
        .map(|chunk| (chunk.x, chunk.y, chunk.z))
        .collect();
    assert_eq!(chunks, vec![(0, 0, 0), (0, -1, 0), (0, 1, 0)]);
}

#[test]
fn tables_hold_each_offset_once() {
    let chunks = visible_offsets(2, 1);
    assert_eq!(chunks.len(), 75);
    for x in -2..=2 {
        for y in -1..=1 {
            for z in -2..=2 {
                let wanted = ChunkPosition::new(x, y, z);
                assert_eq!(chunks.iter().filter(|offset| **offset == wanted).count(), 1);
            }
        }
    }
    assert_eq!(visible_offsets(0, 0), vec![ChunkPosition::new(0, 0, 0)]);
}

#[test]
fn default_tables_have_the_size_of_the_ring() {
    let world = World::new(WorldSettings::default());
    assert_eq!(world.generating_offsets().len(), 35 * 35);
    assert_eq!(world.visible_offsets().len(), 33 * 33 * 21);
    assert_eq!(world.settings(), WorldSettings::default());
}

#[test]
fn new_world_is_idle_at_the_zero_chunk() {
    let mut world = small_world();
    let mut store = ChunkMap::new();
    assert_eq!(world.previous_origin(), ChunkPosition::new(0, 0, 0));
    assert!(world.meshed().is_empty());
    assert!(!world.is_generated(ChunkSectionPosition::new(0, 0)));
    let plan = world.update(BlockPosition::new(8, 8, 8), &mut store, &Flat);
    assert!(plan.is_none());
    assert!(world.meshed().is_empty());
    assert!(!store.contains_key(&ChunkPosition::new(0, 0, 0)));
}

#[test]
fn first_move_generates_the_ring_and_meshes_what_is_visible() {
    let mut world = small_world();
    let mut store = ChunkMap::new();
    let plan = world
        .update(BlockPosition::new(16, 8, 8), &mut store, &Flat)
        .unwrap();
    assert_eq!(world.previous_origin(), ChunkPosition::new(1, 0, 0));
    for x in -2..=4 {
        for z in -3..=3 {
            let section = ChunkSectionPosition::new(x, z);
            assert!(world.is_generated(section));
            for y in 0..3 {
                assert!(store.contains_key(&section.with_y(y)));
            }
            assert!(!store.contains_key(&section.with_y(3)));
            assert!(!store.contains_key(&section.with_y(-1)));
        }
    }
    assert!(!world.is_generated(ChunkSectionPosition::new(5, 0)));
    assert!(!world.is_generated(ChunkSectionPosition::new(-3, 0)));
    assert!(!world.is_generated(ChunkSectionPosition::new(1, 4)));
    assert_eq!(plan.to_mesh.len(), 50);
    assert!(plan.to_evict.is_empty());
    assert_eq!(plan.to_mesh[0], ChunkPosition::new(1, 0, 0));
    assert_eq!(world.meshed(), plan.to_mesh.as_slice());
    for chunk in &plan.to_mesh {
        assert!((-1..=3).contains(&chunk.x));
        assert!((-2..=2).contains(&chunk.z));
        assert!(chunk.y == 0 || chunk.y == 1);
    }
    let origin = ChunkPosition::new(1, 0, 0);
    let distance = |chunk: &ChunkPosition| {
        ChunkPosition::new(chunk.x - origin.x, chunk.y - origin.y, chunk.z - origin.z)
            .length_squared()
    };
    for pair in plan.to_mesh.windows(2) {
        assert!(distance(&pair[0]) <= distance(&pair[1]));
    }
}

#[test]
fn crossing_a_chunk_boundary_moves_one_ring() {
    let mut world = small_world();
    let mut store = ChunkMap::new();
    world.update(BlockPosition::new(31, 8, 8), &mut store, &Flat).unwrap();
    let before: Vec<ChunkPosition> = world.meshed().to_vec();
    let plan = world
        .update(BlockPosition::new(32, 8, 8), &mut store, &Flat)
        .unwrap();
    assert_eq!(world.previous_origin(), ChunkPosition::new(2, 0, 0));
    for z in -3..=3 {
        assert!(world.is_generated(ChunkSectionPosition::new(5, z)));
        assert!(store.contains_key(&ChunkPosition::new(5, 0, z)));
    }
    assert!(!world.is_generated(ChunkSectionPosition::new(6, 0)));
    assert_eq!(plan.to_mesh.len(), 10);
    assert!(plan.to_mesh.iter().all(|chunk| chunk.x == 4));
    assert_eq!(plan.to_evict.len(), 10);
    assert!(plan.to_evict.iter().all(|chunk| chunk.x == -1));
    assert_eq!(world.meshed().len(), 50);
    for chunk in world.meshed() {
        assert!((0..=4).contains(&chunk.x));
        assert_eq!(before.contains(chunk), chunk.x != 4);
    }
    for chunk in &before {
        assert_eq!(world.meshed().contains(chunk), chunk.x != -1);
    }
}

#[test]
fn wanted_sections_are_only_the_new_ones() {
    let mut world = small_world();
    let first = world.wanted_sections(ChunkPosition::new(1, 0, 0));
    assert_eq!(first.len(), 49);
    assert_eq!(first[0], ChunkSectionPosition::new(1, 0));
    let again = world.wanted_sections(ChunkPosition::new(1, 5, 0));
    assert!(again.is_empty());
    let moved = world.wanted_sections(ChunkPosition::new(2, 0, 0));
    let mut columns: Vec<(i32, i32)> = moved.iter().map(|s| (s.x, s.z)).collect();
    assert_eq!(columns[0], (5, 0));
    columns.sort();
    assert_eq!(
        columns,
        vec![(5, -3), (5, -2), (5, -1), (5, 0), (5, 1), (5, 2), (5, 3)]
    );
}

#[test]
fn stationary_camera_leaves_nothing_to_do() {
    let mut world = small_world();
    let mut store = ChunkMap::new();
    let camera = BlockPosition::new(-20, 40, 100);
    assert!(world.update(camera, &mut store, &Flat).is_some());
    let meshed: Vec<ChunkPosition> = world.meshed().to_vec();
    assert!(world.update(camera, &mut store, &Flat).is_none());
    assert!(world
        .update(BlockPosition::new(-17, 47, 111), &mut store, &Flat)
        .is_none());
    assert_eq!(world.meshed(), meshed.as_slice());
    let origin = world.previous_origin();
    assert_eq!(origin, ChunkPosition::new(-2, 2, 6));
    assert!(world.wanted_sections(origin).is_empty());
    let plan = world.update_visible_chunks(origin, &store);
    assert!(plan.to_mesh.is_empty());
    assert!(plan.to_evict.is_empty());
    assert_eq!(world.meshed(), meshed.as_slice());
}

#[test]
fn live_meshes_never_outnumber_the_table() {
    let mut world = small_world();
    let mut store = ChunkMap::new();
    let table = world.visible_offsets().len();
    assert_eq!(table, 75);
    for step in 0..12 {
        let camera = BlockPosition::new(16 + step * 9, 20 + step * 5, -step * 13);
        world.update(camera, &mut store, &Flat);
        assert!(world.meshed().len() <= table);
    }
}

#[test]
fn chunk_is_not_meshed_before_the_columns_beside_it_exist() {
    let mut world = World::new(WorldSettings::new(2, 1, 2).unwrap());
    let mut store = ChunkMap::new();
    let plan = world
        .update(BlockPosition::new(16, 8, 8), &mut store, &Flat)
        .unwrap();
    assert_eq!(plan.to_mesh.len(), 3 * 3 * 2);
    for chunk in &plan.to_mesh {
        assert!((0..=2).contains(&chunk.x));
        assert!((-1..=1).contains(&chunk.z));
    }
    assert!(store.contains_key(&ChunkPosition::new(3, 0, 0)));
}

#[test]
fn empty_sections_count_as_generated_but_give_no_meshes() {
    let mut world = small_world();
    let mut store = ChunkMap::new();
    let plan = world
        .update(BlockPosition::new(16, 8, 8), &mut store, &Void)
        .unwrap();
    assert!(plan.to_mesh.is_empty());
    assert!(plan.to_evict.is_empty());
    assert!(world.is_generated(ChunkSectionPosition::new(1, 0)));
    assert!(!store.contains_key(&ChunkPosition::new(1, 0, 0)));
}

#[test]
fn moving_far_away_evicts_everything() {
    let mut world = small_world();
    let mut store = ChunkMap::new();
    let first = world
        .update(BlockPosition::new(16, 8, 8), &mut store, &Flat)
        .unwrap();
    let plan = world
        .update(BlockPosition::new(16000, 8, 8), &mut store, &Flat)
        .unwrap();
    assert_eq!(plan.to_evict, first.to_mesh);
    assert_eq!(plan.to_mesh.len(), 50);
    assert!(store.contains_key(&ChunkPosition::new(1, 0, 0)));
}

#[test]
fn update_chunks_fills_the_store_only() {
    let mut world = small_world();
    let mut store = ChunkMap::new();
    world.update_chunks(ChunkPosition::new(0, 0, 0), &mut store, &Flat);
    assert!(world.is_generated(ChunkSectionPosition::new(3, -3)));
    assert!(store.contains_key(&ChunkPosition::new(3, 2, -3)));
    assert!(world.meshed().is_empty());
    assert_eq!(world.previous_origin(), ChunkPosition::new(0, 0, 0));
    let plan = world.update_visible_chunks(ChunkPosition::new(0, 0, 0), &store);
    assert_eq!(plan.to_mesh.len(), 50);
}

#[test]
fn chunk_box_spans_sixteen_blocks() {
    let aabb = AABB::of_chunk(ChunkPosition::new(1, -2, 0));
    assert_eq!(aabb.min, (16, -32, 0));
    assert_eq!(aabb.max, (31, -17, 15));
    let far = AABB::of_chunk(ChunkPosition::new(i32::MAX, i32::MIN, 0));
    assert_eq!(far.min, (34359738352, -34359738368, 0));
    assert_eq!(far.max, (34359738367, -34359738353, 15));
    let made = AABB::new((0, 1, 2), (3, 4, 5));
    assert_eq!(
        made.corners(),
        [
            (0, 1, 2),
            (3, 1, 2),
            (0, 4, 2),
            (3, 4, 2),
            (0, 1, 5),
            (3, 1, 5),
            (0, 4, 5),
            (3, 4, 5),
        ]
    );
}

#[test]
fn box_passes_a_plane_with_one_corner_before_it() {
    assert!(!AABB::is_on_plane(&[false; 8]));
    assert!(AABB::is_on_plane(&[true; 8]));
    for corner in 0..8 {
        let mut sides = [false; 8];
        sides[corner] = true;
        assert!(AABB::is_on_plane(&sides));
    }
}

#[test]
fn box_passes_a_frustum_when_it_passes_each_plane() {
    assert!(AABB::is_on_frustum(&[[true; 8]; 6]));
    for plane in 0..6 {
        let mut sides = [[true; 8]; 6];
        sides[plane] = [false; 8];
        assert!(!AABB::is_on_frustum(&sides));
        sides[plane][7] = true;
        assert!(AABB::is_on_frustum(&sides));
    }
}

#[test]
fn empty_mesh_gets_no_buffer() {
    let at = ChunkPosition::new(1, 2, 3);
    assert!(ChunkBuffer::from_mesh(&RawMesh::new(), at, ()).is_none());
    let buffer = ChunkBuffer::from_mesh(&one_face_mesh(), at, 7u8).unwrap();
    assert_eq!(buffer.buffers, 7);
    assert_eq!(buffer.indices_len, 6);
    assert_eq!(buffer.transformation, at);
    assert_eq!(buffer.aabb.min, (16, 32, 48));
    assert_eq!(buffer.aabb.max, (31, 47, 63));
}

#[test]
fn registry_upserts_and_evicts_in_arrival_order() {
    let mesh = one_face_mesh();
    let at = ChunkPosition::new(1, 2, 3);
    let other = ChunkPosition::new(-1, -2, -3);
    let buffer = |tag: u32, position| ChunkBuffer::from_mesh(&mesh, position, tag).unwrap();
    let mut meshes: Meshes<u32> = Meshes::new();
    assert!(meshes.positions().is_empty());
    meshes.apply(MeshResult::Insert { position: at, buffer: buffer(1, at) });
    meshes.apply(MeshResult::Insert { position: other, buffer: buffer(2, other) });
    meshes.apply(MeshResult::Insert { position: at, buffer: buffer(3, at) });
    assert_eq!(meshes.get(&at).unwrap().buffers, 3);
    assert_eq!(meshes.get(&other).unwrap().buffers, 2);
    let mut positions = meshes.positions();
    positions.sort_by_key(|position| position.x);
    assert_eq!(positions, vec![other, at]);
    meshes.apply(MeshResult::Evict { position: at });
    assert!(!meshes.contains_key(&at));
    assert!(meshes.get(&at).is_none());
    assert!(meshes.contains_key(&other));
    meshes.apply(MeshResult::Evict { position: at });
    assert_eq!(meshes.positions(), vec![other]);
    meshes.apply(MeshResult::Insert { position: at, buffer: buffer(4, at) });
    assert_eq!(meshes.evict(at).unwrap().buffers, 4);
    assert!(meshes.evict(at).is_none());
    meshes.upsert(at, buffer(5, at));
    assert_eq!(meshes.get(&at).unwrap().buffers, 5);
    assert!(Meshes::<u32>::default().positions().is_empty());
}

#[test]
fn late_insert_is_dropped_by_a_later_eviction() {
    let mesh = one_face_mesh();
    let at = ChunkPosition::new(0, 0, 0);
    let mut meshes: Meshes<()> = Meshes::new();
    meshes.apply(MeshResult::Evict { position: at });
    meshes.apply(MeshResult::Insert {
        position: at,
        buffer: ChunkBuffer::from_mesh(&mesh, at, ()).unwrap(),
    });
    assert!(meshes.contains_key(&at));
    meshes.apply(MeshResult::Evict { position: at });
    assert!(meshes.positions().is_empty());
}

#[test]
fn observe_reports_a_new_origin_once() {
    let mut world = small_world();
    assert_eq!(world.observe(BlockPosition::new(15, 15, 15)), None);
    assert_eq!(
        world.observe(BlockPosition::new(16, 0, -1)),
        Some(ChunkPosition::new(1, 0, -1))
    );
    assert_eq!(world.previous_origin(), ChunkPosition::new(1, 0, -1));
    assert_eq!(world.observe(BlockPosition::new(31, 15, -16)), None);
    assert_eq!(
        world.observe(BlockPosition::new(0, 0, 0)),
        Some(ChunkPosition::new(0, 0, 0))
    );
    assert!(world.meshed().is_empty());
}

#[test]
fn registry_counts_and_retains() {
    let mesh = one_face_mesh();
    let mut meshes: Meshes<i32> = Meshes::new();
    assert_eq!(meshes.len(), 0);
    for x in 0..10 {
        let at = ChunkPosition::new(x, 0, 0);
        meshes.upsert(at, ChunkBuffer::from_mesh(&mesh, at, x).unwrap());
    }
    let again = ChunkPosition::new(3, 0, 0);
    meshes.upsert(again, ChunkBuffer::from_mesh(&mesh, again, 33).unwrap());
    assert_eq!(meshes.len(), 10);
    let keep = [
        ChunkPosition::new(3, 0, 0),
        ChunkPosition::new(7, 0, 0),
        ChunkPosition::new(7, 0, 0),
        ChunkPosition::new(70, 0, 0),
    ];
    meshes.retain(&keep);
    assert_eq!(meshes.len(), 2);
    assert_eq!(meshes.get(&keep[0]).unwrap().buffers, 33);
    assert_eq!(meshes.get(&keep[1]).unwrap().buffers, 7);
    assert!(!meshes.contains_key(&keep[3]));
    assert!(!meshes.contains_key(&ChunkPosition::new(4, 0, 0)));
    meshes.retain(&[]);
    assert_eq!(meshes.len(), 0);
    assert!(meshes.positions().is_empty());
}

#[test]
fn registry_follows_the_scheduler() {
    let mut world = small_world();
    let mut store = ChunkMap::new();
    let mut meshes: Meshes<()> = Meshes::new();
    let mesh = one_face_mesh();
    let mut late = Vec::new();
    for step in 0..6 {
        let camera = BlockPosition::new(16 + 40 * step, 8, 8);
        let plan = world.update(camera, &mut store, &Flat).unwrap();
        for position in plan.to_evict {
            meshes.apply(MeshResult::Evict { position });
        }
        for position in late.drain(..) {
            let buffer = ChunkBuffer::from_mesh(&mesh, position, ()).unwrap();
            meshes.apply(MeshResult::Insert { position, buffer });
        }
        late = plan.to_mesh;
        meshes.retain(world.meshed());
        assert!(meshes.len() <= world.meshed().len());
        assert!(meshes.len() <= world.visible_offsets().len());
        for position in meshes.positions() {
            assert!(world.meshed().contains(&position));
        }
    }
}

#[test]
fn atlas_counts_whole_tiles() {
    assert_eq!(TILE_SIZE, 16);
    let atlas = TextureAtlasUniform::new(256, 64, TILE_SIZE);
    assert_eq!(atlas.columns, 16);
    assert_eq!(atlas.rows, 4);
    let odd = TextureAtlasUniform::new(100, 15, 16);
    assert_eq!(odd.columns, 6);
    assert_eq!(odd.rows, 0);
}
