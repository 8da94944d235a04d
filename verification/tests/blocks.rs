use voxel::block::{Block, Visibility};
use voxel::face::{Direction, Face};
use voxel::position::LocalPosition;
use voxel::vertex::Vertex;

#[test]
fn air_is_the_default_and_the_only_empty_block() {
    assert_eq!(Block::default(), Block::Air);
    let all = [
        Block::Air,
        Block::Grass,
        Block::Dirt,
        Block::Sand,
        Block::Stone,
        Block::Water,
        Block::Snow,
        Block::Ice,
        Block::Gravel,
    ];
    for block in all {
        assert_eq!(block.is_empty(), block == Block::Air);
        assert_eq!(block.visibility() == Visibility::Empty, block == Block::Air);
    }
}

#[test]
fn visibility_classes() {
    assert_eq!(Block::Grass.visibility(), Visibility::Opaque);
    assert_eq!(Block::Stone.visibility(), Visibility::Opaque);
    assert_eq!(Block::Water.visibility(), Visibility::Transparent);
    assert_eq!(Block::Ice.visibility(), Visibility::Transparent);
    assert!(Block::Sand.is_opaque());
    assert!(Block::Water.is_transparent());
    assert!(!Block::Water.is_opaque());
}

#[test]
fn texture_ids_fit_six_bits_and_differ() {
    let solid = [
        Block::Grass,
        Block::Water,
        Block::Dirt,
        Block::Sand,
        Block::Stone,
        Block::Snow,
        Block::Ice,
        Block::Gravel,
    ];
    for (i, block) in solid.iter().enumerate() {
        assert_eq!(block.texture_id(), i as u32);
        assert!(block.texture_id() < 64);
    }
}

#[test]
fn direction_steps_and_ordinals() {
    assert_eq!(Direction::Top.to_vec(), (0, 1, 0));
    assert_eq!(Direction::Bottom.to_vec(), (0, -1, 0));
    assert_eq!(Direction::Left.to_vec(), (-1, 0, 0));
    assert_eq!(Direction::Right.to_vec(), (1, 0, 0));
    assert_eq!(Direction::Front.to_vec(), (0, 0, 1));
    assert_eq!(Direction::Back.to_vec(), (0, 0, -1));
    let all = [
        Direction::Top,
        Direction::Bottom,
        Direction::Left,
        Direction::Right,
        Direction::Front,
        Direction::Back,
    ];
    for (i, direction) in all.iter().enumerate() {
        assert_eq!(direction.ordinal(), i as u32);
    }
}

#[test]
fn vertex_packs_fields_at_their_offsets() {
    let vertex = Vertex::new(LocalPosition::new(1, 2, 3), 2, 5, 4);
    assert_eq!(vertex.bits(), 143067904);
    assert_eq!(
        vertex.bits(),
        (1 << 27) | (2 << 22) | (3 << 17) | (2 << 15) | (5 << 9) | (4 << 6)
    );
    assert_eq!(vertex.bits() & 63, 0);
}

#[test]
fn vertex_round_trip_over_every_field_value() {
    for x in [0u32, 1, 7, 15, 16] {
        for y in [0u32, 9, 16] {
            for z in [0u32, 3, 16] {
                for ao in 0u8..=3 {
                    for texture_id in [0u32, 1, 31, 63] {
                        for direction in 0u32..=5 {
                            let position = LocalPosition::new(x, y, z);
                            let vertex = Vertex::new(position, ao, texture_id, direction);
                            assert_eq!(vertex.position(), position);
                            assert_eq!(vertex.ao(), ao);
                            assert_eq!(vertex.texture_id(), texture_id);
                            assert_eq!(vertex.direction(), direction);
                        }
                    }
                }
            }
        }
    }
}

#[test]
fn vertex_extremes() {
    let zero = Vertex::new(LocalPosition::new(0, 0, 0), 0, 0, 0);
    assert_eq!(zero.bits(), 0);
    let full = Vertex::new(LocalPosition::new(16, 16, 16), 3, 63, 5);
    assert_eq!(
        full.bits(),
        (16 << 27) | (16 << 22) | (16 << 17) | (3 << 15) | (63 << 9) | (5 << 6)
    );
}

#[test]
fn quad_indices_follow_the_pattern() {
    assert_eq!(Face::indices(0), [0, 1, 2, 2, 3, 0]);
    assert_eq!(Face::indices(1), [4, 5, 6, 6, 7, 4]);
    assert_eq!(Face::indices(16383), [65532, 65533, 65534, 65534, 65535, 65532]);
}

#[test]
fn top_face_vertices() {
    let face = Face::new(
        Block::Grass,
        LocalPosition::new(2, 3, 4),
        [0, 1, 2, 3],
        Direction::Top,
    );
    let vertices = face.vertices();
    let expected = [(2, 4, 4), (3, 4, 4), (3, 4, 5), (2, 4, 5)];
    for corner in 0..4 {
        let (x, y, z) = expected[corner];
        assert_eq!(vertices[corner].position(), LocalPosition::new(x, y, z));
        assert_eq!(vertices[corner].ao(), corner as u8);
        assert_eq!(vertices[corner].texture_id(), 0);
        assert_eq!(vertices[corner].direction(), 0);
    }
}

#[test]
fn face_corners_lie_on_the_side_of_the_block() {
    let all = [
        (Direction::Top, 1, 1u32),
        (Direction::Bottom, 1, 0),
        (Direction::Left, 0, 0),
        (Direction::Right, 0, 1),
        (Direction::Front, 2, 1),
        (Direction::Back, 2, 0),
    ];
    for (direction, axis, value) in all {
        let corners = direction.corners();
        for corner in corners {
            let on_axis = [corner.x, corner.y, corner.z][axis];
            assert_eq!(on_axis, value);
        }
        for i in 0..4 {
            for j in (i + 1)..4 {
                assert_ne!(corners[i], corners[j]);
            }
        }
    }
}

#[test]
fn face_at_the_far_corner_of_a_chunk() {
    let face = Face::new(
        Block::Water,
        LocalPosition::new(15, 15, 15),
        [3, 3, 3, 3],
        Direction::Right,
    );
    let vertices = face.vertices();
    for vertex in vertices {
        assert_eq!(vertex.position().x, 16);
        assert_eq!(vertex.texture_id(), 1);
        assert_eq!(vertex.direction(), 3);
    }
}
