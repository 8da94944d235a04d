use voxel::block::Block;
use voxel::chunk::{ChunkOrAir, ChunkSection, RawChunk};
use voxel::chunk_map::ChunkMap;
use voxel::neighborhood::ChunkNeighborhood;
use voxel::position::{
    BlockPosition, ChunkPosition, ChunkSectionPosition, LocalPosition,
};

fn chunk_with(blocks: &[((u32, u32, u32), Block)]) -> Box<RawChunk> {
    let mut chunk = RawChunk::new();
    for ((x, y, z), block) in blocks {
        chunk.set(LocalPosition::new(*x, *y, *z), *block);
    }
    Box::new(chunk)
}

#[test]
fn new_chunk_is_all_air() {
    let chunk = RawChunk::new();
    assert!(chunk.is_empty());
    let blocks = chunk.iter();
    assert_eq!(blocks.len(), 4096);
    assert!(blocks.iter().all(|block| *block == Block::Air));
    assert!(RawChunk::default().is_empty());
}

#[test]
fn chunk_reads_what_was_written() {
    let mut chunk = RawChunk::new();
    for x in 0..16 {
        for y in 0..16 {
            for z in 0..16 {
                let position = LocalPosition::new(x, y, z);
                chunk.set(position, Block::Stone);
                assert_eq!(chunk.get(position), Block::Stone);
                chunk.set(position, Block::Air);
            }
        }
    }
    assert!(chunk.is_empty());
}

#[test]
fn chunk_write_leaves_other_blocks() {
    let mut chunk = RawChunk::new();
    chunk.set(LocalPosition::new(1, 2, 3), Block::Grass);
    chunk.set(LocalPosition::new(3, 2, 1), Block::Water);
    assert_eq!(chunk.get(LocalPosition::new(1, 2, 3)), Block::Grass);
    assert_eq!(chunk.get(LocalPosition::new(3, 2, 1)), Block::Water);
    assert_eq!(chunk.get(LocalPosition::new(2, 1, 3)), Block::Air);
    assert!(!chunk.is_empty());
    let solid = chunk.iter().iter().filter(|block| **block != Block::Air).count();
    assert_eq!(solid, 2);
}

#[test]
fn chunk_iter_goes_layer_by_layer() {
    let mut chunk = RawChunk::new();
    chunk.set(LocalPosition::new(1, 2, 3), Block::Grass);
    let blocks = chunk.iter();
    assert_eq!(blocks[2 * 256 + 16 + 3], Block::Grass);
}

#[test]
fn chunk_or_air_reads_air_without_a_chunk() {
    let chunk = chunk_with(&[((0, 0, 0), Block::Sand)]);
    let present = ChunkOrAir::new(&chunk);
    assert_eq!(present.get(LocalPosition::new(0, 0, 0)), Block::Sand);
    assert_eq!(present.get(LocalPosition::new(1, 0, 0)), Block::Air);
    let absent = ChunkOrAir::air();
    assert_eq!(absent.get(LocalPosition::new(0, 0, 0)), Block::Air);
}

#[test]
fn section_splits_height_into_chunk_and_local() {
    let mut section = ChunkSection::new();
    section.set(LocalPosition::new(3, 37, 5), Block::Dirt);
    assert_eq!(section.get(LocalPosition::new(3, 37, 5)), Block::Dirt);
    assert_eq!(section.get(LocalPosition::new(3, 36, 5)), Block::Air);
    assert_eq!(section.get(LocalPosition::new(3, 5, 5)), Block::Air);
    let chunks = section.into_chunks();
    assert_eq!(chunks.len(), 1);
    assert_eq!(chunks[0].0, 2);
    assert_eq!(chunks[0].1.get(LocalPosition::new(3, 5, 5)), Block::Dirt);
}

#[test]
fn section_yields_only_chunks_with_blocks_bottom_first() {
    let mut section = ChunkSection::new();
    section.set(LocalPosition::new(0, 255, 0), Block::Stone);
    section.set(LocalPosition::new(0, 0, 0), Block::Stone);
    section.set(LocalPosition::new(15, 100, 15), Block::Water);
    let heights: Vec<usize> = section.into_chunks().into_iter().map(|(y, _)| y).collect();
    assert_eq!(heights, vec![0, 6, 15]);
    assert!(ChunkSection::default().into_chunks().is_empty());
}

#[test]
fn section_positions() {
    let position = ChunkSectionPosition::new(3, -4);
    assert_eq!(position.with_y(7), ChunkPosition::new(3, 7, -4));
    assert_eq!(
        position.adjacent(),
        [
            ChunkSectionPosition::new(2, -4),
            ChunkSectionPosition::new(4, -4),
            ChunkSectionPosition::new(3, -5),
            ChunkSectionPosition::new(3, -3),
        ]
    );
    assert_eq!(
        position.offset(ChunkSectionPosition::new(-3, 4)),
        ChunkSectionPosition::new(0, 0)
    );
    assert_eq!(ChunkPosition::new(3, 9, -4).section(), position);
    assert_eq!(position.length_squared(), 25);
    assert_eq!(position.block_column(15, 0), (63, -64));
}

#[test]
fn keys_tell_positions_apart() {
    let positions = [
        ChunkPosition::new(0, 0, 0),
        ChunkPosition::new(1, 0, 0),
        ChunkPosition::new(0, 1, 0),
        ChunkPosition::new(0, 0, 1),
        ChunkPosition::new(-1, 0, 0),
        ChunkPosition::new(i32::MIN, i32::MIN, i32::MIN),
        ChunkPosition::new(i32::MAX, i32::MAX, i32::MAX),
        ChunkPosition::new(i32::MAX, i32::MIN, 0),
    ];
    for (i, a) in positions.iter().enumerate() {
        assert_eq!(ChunkPosition::from_key(a.key()), *a);
        for (j, b) in positions.iter().enumerate() {
            assert_eq!(a.key() == b.key(), i == j);
        }
    }
    assert_eq!(ChunkPosition::new(i32::MIN, i32::MIN, i32::MIN).key(), 0);
    assert_eq!(
        ChunkSectionPosition::new(1, -1).key() == ChunkSectionPosition::new(-1, 1).key(),
        false
    );
}

#[test]
fn origin_is_the_floor_of_the_camera_block() {
    let at = |x, y, z| ChunkPosition::containing(BlockPosition::new(x, y, z));
    assert_eq!(at(0, 15, 16), ChunkPosition::new(0, 0, 1));
    assert_eq!(at(-1, -16, -17), ChunkPosition::new(-1, -1, -2));
    assert_eq!(at(-2, 90, -2), ChunkPosition::new(-1, 5, -1));
    assert_eq!(
        at(i32::MIN, i32::MAX, 31),
        ChunkPosition::new(-134217728, 134217727, 1)
    );
}

#[test]
fn squared_lengths() {
    assert_eq!(ChunkPosition::new(1, -2, 3).length_squared(), 14);
    assert_eq!(
        ChunkPosition::new(i32::MIN, i32::MIN, i32::MIN).length_squared(),
        3 * (1u64 << 62)
    );
}

#[test]
fn wrapping_add_signed_wraps_each_axis() {
    let position = LocalPosition::new(0, 5, u32::MAX);
    assert_eq!(
        position.wrapping_add_signed((-1, -2, 1)),
        LocalPosition::new(u32::MAX, 3, 0)
    );
    assert_eq!(position.with_y(9), LocalPosition::new(0, 9, u32::MAX));
}

#[test]
fn store_keeps_chunks_by_position() {
    let mut store = ChunkMap::new();
    let at = ChunkPosition::new(1, -2, 3);
    assert!(!store.contains_key(&at));
    assert!(store.get(&at).is_none());
    store.update_chunk_at(at, chunk_with(&[((1, 1, 1), Block::Stone)]));
    assert!(store.contains_key(&at));
    assert!(!store.contains_key(&ChunkPosition::new(1, -2, 4)));
    assert_eq!(
        store.get(&at).unwrap().get(LocalPosition::new(1, 1, 1)),
        Block::Stone
    );
    assert_eq!(
        store.chunk_at(&at).get(LocalPosition::new(1, 1, 1)),
        Block::Stone
    );
    assert_eq!(
        store
            .chunk_at(&ChunkPosition::new(0, 0, 0))
            .get(LocalPosition::new(1, 1, 1)),
        Block::Air
    );
}

#[test]
fn store_extend_lets_the_later_entry_win() {
    let mut store = ChunkMap::default();
    let at = ChunkPosition::new(0, 0, 0);
    store.extend(vec![
        (at, chunk_with(&[((0, 0, 0), Block::Stone)])),
        (ChunkPosition::new(5, 5, 5), chunk_with(&[((0, 0, 0), Block::Dirt)])),
        (at, chunk_with(&[((0, 0, 0), Block::Sand)])),
    ]);
    assert_eq!(
        store.get(&at).unwrap().get(LocalPosition::new(0, 0, 0)),
        Block::Sand
    );
    assert!(store.contains_key(&ChunkPosition::new(5, 5, 5)));
}

#[test]
fn store_takes_the_chunks_of_a_section_that_hold_blocks() {
    let mut section = ChunkSection::new();
    section.set(LocalPosition::new(0, 17, 0), Block::Stone);
    let mut store = ChunkMap::new();
    store.insert_section(ChunkSectionPosition::new(4, -4), section);
    assert!(store.contains_key(&ChunkPosition::new(4, 1, -4)));
    assert!(!store.contains_key(&ChunkPosition::new(4, 0, -4)));
    assert!(!store.contains_key(&ChunkPosition::new(4, 2, -4)));
    assert_eq!(
        store
            .get(&ChunkPosition::new(4, 1, -4))
            .unwrap()
            .get(LocalPosition::new(0, 1, 0)),
        Block::Stone
    );
}

#[test]
fn neighborhood_reads_the_centre_and_the_six_faces() {
    let mut store = ChunkMap::new();
    let center = ChunkPosition::new(0, 0, 0);
    store.update_chunk_at(center, chunk_with(&[((0, 0, 0), Block::Grass), ((15, 15, 15), Block::Dirt)]));
    store.update_chunk_at(ChunkPosition::new(1, 0, 0), chunk_with(&[((0, 4, 5), Block::Stone)]));
    store.update_chunk_at(ChunkPosition::new(-1, 0, 0), chunk_with(&[((15, 4, 5), Block::Sand)]));
    store.update_chunk_at(ChunkPosition::new(0, 1, 0), chunk_with(&[((4, 0, 5), Block::Water)]));
    store.update_chunk_at(ChunkPosition::new(0, -1, 0), chunk_with(&[((4, 15, 5), Block::Snow)]));
    store.update_chunk_at(ChunkPosition::new(0, 0, 1), chunk_with(&[((4, 5, 0), Block::Ice)]));
    store.update_chunk_at(ChunkPosition::new(0, 0, -1), chunk_with(&[((4, 5, 15), Block::Gravel)]));
    let neighborhood = ChunkNeighborhood::new(&store, center);
    assert_eq!(neighborhood.center(), center);
    let get = |x, y, z| neighborhood.get(LocalPosition::new(x, y, z));
    assert_eq!(get(1, 1, 1), Block::Grass);
    assert_eq!(get(16, 16, 16), Block::Dirt);
    assert_eq!(get(17, 5, 6), Block::Stone);
    assert_eq!(get(0, 5, 6), Block::Sand);
    assert_eq!(get(5, 17, 6), Block::Water);
    assert_eq!(get(5, 0, 6), Block::Snow);
    assert_eq!(get(5, 6, 17), Block::Ice);
    assert_eq!(get(5, 6, 0), Block::Gravel);
    assert_eq!(get(2, 2, 2), Block::Air);
}

#[test]
fn neighborhood_is_air_on_edges_and_outside() {
    let mut store = ChunkMap::new();
    for x in -1..=1 {
        for y in -1..=1 {
            for z in -1..=1 {
                let mut chunk = RawChunk::new();
                for bx in 0..16 {
                    for by in 0..16 {
                        for bz in 0..16 {
                            chunk.set(LocalPosition::new(bx, by, bz), Block::Stone);
                        }
                    }
                }
                store.update_chunk_at(ChunkPosition::new(x, y, z), Box::new(chunk));
            }
        }
    }
    let neighborhood = ChunkNeighborhood::new(&store, ChunkPosition::new(0, 0, 0));
    for x in 0..=18u32 {
        for y in 0..=18u32 {
            for z in 0..=18u32 {
                let outside = [x, y, z].iter().filter(|v| **v == 0 || **v == 17).count();
                let beyond = x > 17 || y > 17 || z > 17;
                let expected = if beyond || outside > 1 { Block::Air } else { Block::Stone };
                assert_eq!(neighborhood.get(LocalPosition::new(x, y, z)), expected);
            }
        }
    }
    assert_eq!(
        neighborhood.get(LocalPosition::new(u32::MAX, 5, 5)),
        Block::Air
    );
}

#[test]
fn neighborhood_of_a_missing_chunk_is_air() {
    let store = ChunkMap::new();
    let neighborhood = ChunkNeighborhood::new(&store, ChunkPosition::new(i32::MAX, i32::MIN, 0));
    assert_eq!(neighborhood.get(LocalPosition::new(1, 1, 1)), Block::Air);
    assert_eq!(neighborhood.get(LocalPosition::new(17, 1, 1)), Block::Air);
    assert_eq!(neighborhood.get(LocalPosition::new(1, 0, 1)), Block::Air);
}

#[test]
fn chunk_enumerates_blocks_with_their_positions() {
    let mut chunk = RawChunk::new();
    chunk.set(LocalPosition::new(1, 2, 3), Block::Grass);
    let blocks = chunk.iter_enumerate();
    assert_eq!(blocks.len(), 4096);
    for (slot, (position, block)) in blocks.iter().enumerate() {
        assert_eq!((position.y * 256 + position.x * 16 + position.z) as usize, slot);
        assert_eq!(*block, chunk.get(*position));
    }
    assert_eq!(blocks[0].0, LocalPosition::new(0, 0, 0));
    assert_eq!(blocks[1].0, LocalPosition::new(0, 0, 1));
    assert_eq!(blocks[16].0, LocalPosition::new(1, 0, 0));
    assert_eq!(blocks[256].0, LocalPosition::new(0, 1, 0));
    assert_eq!(blocks[2 * 256 + 16 + 3], (LocalPosition::new(1, 2, 3), Block::Grass));
}

#[test]
fn positions_add_and_convert() {
    assert_eq!(
        ChunkPosition::new(1, 2, 3) + ChunkPosition::new(-4, 5, -6),
        ChunkPosition::new(-3, 7, -3)
    );
    assert_eq!(
        ChunkSectionPosition::new(1, 2) + ChunkSectionPosition::new(3, -4),
        ChunkSectionPosition::new(4, -2)
    );
    assert_eq!(ChunkSectionPosition::from((7, -8)), ChunkSectionPosition::new(7, -8));
    assert_eq!(
        ChunkSectionPosition::from(ChunkPosition::new(7, 100, -8)),
        ChunkSectionPosition::new(7, -8)
    );
    assert_eq!(
        ChunkPosition::new(1, 2, 3).offset(ChunkPosition::new(1, 1, 1)),
        ChunkPosition::new(2, 3, 4)
    );
}
