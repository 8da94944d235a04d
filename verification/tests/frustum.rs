use glam::camera::rh::{proj, view};
use glam::{Mat4, Vec3, Vec4};
use voxel::position::ChunkPosition;
use voxel::registry::AABB;

fn planes(matrix: Mat4) -> [Vec4; 6] {
    [
        matrix.row(3) + matrix.row(0),
        matrix.row(3) - matrix.row(0),
        matrix.row(3) + matrix.row(1),
        matrix.row(3) - matrix.row(1),
        matrix.row(3) + matrix.row(2),
        matrix.row(3) - matrix.row(2),
    ]
}

fn corners_before(aabb: &AABB, plane: Vec4) -> [bool; 8] {
    let normal = plane.truncate();
    let scale = normal.length_recip();
    aabb.corners().map(|(x, y, z)| {
        let point = Vec3::new(x as f32, y as f32, z as f32);
        point.dot(normal * scale) >= -plane.w * scale
    })
}

fn sides(aabb: &AABB, matrix: Mat4) -> [[bool; 8]; 6] {
    planes(matrix).map(|plane| corners_before(aabb, plane))
}

fn looking(eye: Vec3, direction: Vec3) -> Mat4 {
    let projection = proj::directx::perspective(90.0_f32.to_radians(), 1.0, 0.1, 1000.0);
    projection * view::look_to_mat4(eye, direction, Vec3::Y)
}

#[test]
fn chunk_ahead_passes_and_chunk_behind_fails_the_near_plane() {
    let matrix = looking(Vec3::ZERO, Vec3::Z);
    let ahead = AABB::new((-8, -8, 92), (8, 8, 108));
    assert!(AABB::is_on_frustum(&sides(&ahead, matrix)));
    let behind = AABB::new((-8, -8, -108), (8, 8, -92));
    let behind_sides = sides(&behind, matrix);
    assert!(!AABB::is_on_frustum(&behind_sides));
    assert!(!AABB::is_on_plane(&behind_sides[4]));
    assert_eq!(behind_sides[4], [false; 8]);
}

#[test]
fn unit_cube_passes_when_it_is_in_view() {
    let cube = AABB::new((0, 0, 0), (1, 1, 1));
    let seen = looking(Vec3::new(0.5, 0.5, -5.0), Vec3::Z);
    assert!(AABB::is_on_frustum(&sides(&cube, seen)));
    let away = looking(Vec3::new(0.5, 0.5, -5.0), Vec3::NEG_Z);
    assert!(!AABB::is_on_frustum(&sides(&cube, away)));
    let beside = looking(Vec3::new(50.0, 0.5, -5.0), Vec3::Z);
    assert!(!AABB::is_on_frustum(&sides(&cube, beside)));
    let beyond = looking(Vec3::new(0.5, 0.5, -2000.0), Vec3::Z);
    assert!(!AABB::is_on_frustum(&sides(&cube, beyond)));
}

#[test]
fn chunk_across_a_plane_passes() {
    let matrix = looking(Vec3::ZERO, Vec3::Z);
    let across = AABB::of_chunk(ChunkPosition::new(0, 0, 0));
    let across_sides = sides(&across, matrix);
    assert!(AABB::is_on_frustum(&across_sides));
    assert!(across_sides[4].contains(&true));
}
