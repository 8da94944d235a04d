//! Faces of blocks: the six directions, and the quad that a visible side of
//! a block turns into.

use crate::block::Block;
use crate::position::LocalPosition;
use crate::vertex::{packed, Vertex};
use vstd::prelude::*;

verus! {

/// Largest number of quads that 16-bit indices can address.
pub const MAX_QUADS: u16 = 16384;

/// The side of a block that a face covers.
#[derive(Debug, Clone, Copy, PartialEq, Eq, Structural, Hash)]
pub enum Direction {
    Top,
    Bottom,
    Left,
    Right,
    Front,
    Back,
}

impl Direction {
    /// The unit step towards the block on that side: `Top` is up the `y`
    /// axis, `Right` along `x`, `Front` along `z`.
    pub open spec fn spec_to_vec(&self) -> (i32, i32, i32) {
        match self {
            Direction::Top => (0, 1, 0),
            Direction::Bottom => (0, -1i32, 0),
            Direction::Left => (-1i32, 0, 0),
            Direction::Right => (1, 0, 0),
            Direction::Front => (0, 0, 1),
            Direction::Back => (0, 0, -1i32),
        }
    }

    #[verifier::when_used_as_spec(spec_to_vec)]
    pub fn to_vec(&self) -> (step: (i32, i32, i32))
        ensures
            step == self.spec_to_vec(),
    {
        match self {
            Direction::Top => (0, 1, 0),
            Direction::Bottom => (0, -1, 0),
            Direction::Left => (-1, 0, 0),
            Direction::Right => (1, 0, 0),
            Direction::Front => (0, 0, 1),
            Direction::Back => (0, 0, -1),
        }
    }

    /// The number under which a vertex carries the direction.
    pub open spec fn spec_ordinal(&self) -> u32 {
        match self {
            Direction::Top => 0,
            Direction::Bottom => 1,
            Direction::Left => 2,
            Direction::Right => 3,
            Direction::Front => 4,
            Direction::Back => 5,
        }
    }

    #[verifier::when_used_as_spec(spec_ordinal)]
    pub fn ordinal(&self) -> (ordinal: u32)
        ensures
            ordinal == self.spec_ordinal(),
    {
        match self {
            Direction::Top => 0,
            Direction::Bottom => 1,
            Direction::Left => 2,
            Direction::Right => 3,
            Direction::Front => 4,
            Direction::Back => 5,
        }
    }

    /// The corners of the unit cube that the face on this side runs through,
    /// in the order that makes the quad wind clockwise seen from outside.
    pub open spec fn spec_corners(&self) -> Seq<LocalPosition> {
        match self {
            Direction::Top => seq![
                LocalPosition { x: 0, y: 1, z: 0 },
                LocalPosition { x: 1, y: 1, z: 0 },
                LocalPosition { x: 1, y: 1, z: 1 },
                LocalPosition { x: 0, y: 1, z: 1 },
            ],
            Direction::Bottom => seq![
                LocalPosition { x: 1, y: 0, z: 1 },
                LocalPosition { x: 1, y: 0, z: 0 },
                LocalPosition { x: 0, y: 0, z: 0 },
                LocalPosition { x: 0, y: 0, z: 1 },
            ],
            Direction::Left => seq![
                LocalPosition { x: 0, y: 1, z: 0 },
                LocalPosition { x: 0, y: 1, z: 1 },
                LocalPosition { x: 0, y: 0, z: 1 },
                LocalPosition { x: 0, y: 0, z: 0 },
            ],
            Direction::Right => seq![
                LocalPosition { x: 1, y: 1, z: 1 },
                LocalPosition { x: 1, y: 1, z: 0 },
                LocalPosition { x: 1, y: 0, z: 0 },
                LocalPosition { x: 1, y: 0, z: 1 },
            ],
            Direction::Front => seq![
                LocalPosition { x: 0, y: 1, z: 1 },
                LocalPosition { x: 1, y: 1, z: 1 },
                LocalPosition { x: 1, y: 0, z: 1 },
                LocalPosition { x: 0, y: 0, z: 1 },
            ],
            Direction::Back => seq![
                LocalPosition { x: 1, y: 1, z: 0 },
                LocalPosition { x: 0, y: 1, z: 0 },
                LocalPosition { x: 0, y: 0, z: 0 },
                LocalPosition { x: 1, y: 0, z: 0 },
            ],
        }
    }

    pub fn corners(&self) -> (corners: [LocalPosition; 4])
        ensures
            corners@ == self.spec_corners(),
    {
        let corners = match self {
            Direction::Top => [
                LocalPosition { x: 0, y: 1, z: 0 },
                LocalPosition { x: 1, y: 1, z: 0 },
                LocalPosition { x: 1, y: 1, z: 1 },
                LocalPosition { x: 0, y: 1, z: 1 },
            ],
            Direction::Bottom => [
                LocalPosition { x: 1, y: 0, z: 1 },
                LocalPosition { x: 1, y: 0, z: 0 },
                LocalPosition { x: 0, y: 0, z: 0 },
                LocalPosition { x: 0, y: 0, z: 1 },
            ],
            Direction::Left => [
                LocalPosition { x: 0, y: 1, z: 0 },
                LocalPosition { x: 0, y: 1, z: 1 },
                LocalPosition { x: 0, y: 0, z: 1 },
                LocalPosition { x: 0, y: 0, z: 0 },
            ],
            Direction::Right => [
                LocalPosition { x: 1, y: 1, z: 1 },
                LocalPosition { x: 1, y: 1, z: 0 },
                LocalPosition { x: 1, y: 0, z: 0 },
                LocalPosition { x: 1, y: 0, z: 1 },
            ],
            Direction::Front => [
                LocalPosition { x: 0, y: 1, z: 1 },
                LocalPosition { x: 1, y: 1, z: 1 },
                LocalPosition { x: 1, y: 0, z: 1 },
                LocalPosition { x: 0, y: 0, z: 1 },
            ],
            Direction::Back => [
                LocalPosition { x: 1, y: 1, z: 0 },
                LocalPosition { x: 0, y: 1, z: 0 },
                LocalPosition { x: 0, y: 0, z: 0 },
                LocalPosition { x: 1, y: 0, z: 0 },
            ],
        };
        assert(corners@ =~= self.spec_corners());
        corners
    }
}

/// The cross product of the edges from `first` to `second` and from
/// `first` to `third`: it points to the side from which the three corners
/// are seen going round against the clock.
pub open spec fn turn(first: LocalPosition, second: LocalPosition, third: LocalPosition) -> (
    int,
    int,
    int,
) {
    let a = (second.x - first.x, second.y - first.y, second.z - first.z);
    let b = (third.x - first.x, third.y - first.y, third.z - first.z);
    (a.1 * b.2 - a.2 * b.1, a.2 * b.0 - a.0 * b.2, a.0 * b.1 - a.1 * b.0)
}

/// The product of two numbers that are each `-1`, `0` or `1`.
spec fn unit_product(a: int, b: int) -> int {
    if a == 0 || b == 0 {
        0
    } else if a == b {
        1
    } else {
        -1
    }
}

proof fn lemma_unit_product(a: int, b: int)
    by (nonlinear_arith)
    requires
        -1 <= a <= 1,
        -1 <= b <= 1,
    ensures
        a * b == unit_product(a, b),
{
}

/// Between corners of the unit cube, the turn is made of products of
/// numbers that are each `-1`, `0` or `1`.
proof fn lemma_unit_turn(first: LocalPosition, second: LocalPosition, third: LocalPosition)
    requires
        first.x <= 1 && first.y <= 1 && first.z <= 1,
        second.x <= 1 && second.y <= 1 && second.z <= 1,
        third.x <= 1 && third.y <= 1 && third.z <= 1,
    ensures
        ({
            let a = (second.x - first.x, second.y - first.y, second.z - first.z);
            let b = (third.x - first.x, third.y - first.y, third.z - first.z);
            turn(first, second, third) == (
                unit_product(a.1, b.2) - unit_product(a.2, b.1),
                unit_product(a.2, b.0) - unit_product(a.0, b.2),
                unit_product(a.0, b.1) - unit_product(a.1, b.0),
            )
        }),
{
    let a = (second.x - first.x, second.y - first.y, second.z - first.z);
    let b = (third.x - first.x, third.y - first.y, third.z - first.z);
    lemma_unit_product(a.1, b.2);
    lemma_unit_product(a.2, b.1);
    lemma_unit_product(a.2, b.0);
    lemma_unit_product(a.0, b.2);
    lemma_unit_product(a.0, b.1);
    lemma_unit_product(a.1, b.0);
}

/// Both triangles of a face wind clockwise seen from outside the block:
/// their corners turn round the step of the direction taken backwards.
/// And the four corners lie on the side of the block that the face covers.
pub proof fn lemma_faces_wind_clockwise(direction: Direction)
    ensures
        ({
            let corners = direction.spec_corners();
            let step = direction.spec_to_vec();
            &&& corners.len() == 4
            &&& turn(corners[0], corners[1], corners[2]) == (-step.0, -step.1, -step.2)
            &&& turn(corners[2], corners[3], corners[0]) == (-step.0, -step.1, -step.2)
            &&& forall|corner: int|
                0 <= corner < 4 ==> {
                    let at = #[trigger] corners[corner];
                    &&& at.x <= 1 && at.y <= 1 && at.z <= 1
                    &&& step.0 == 1 ==> at.x == 1
                    &&& step.0 == -1 ==> at.x == 0
                    &&& step.1 == 1 ==> at.y == 1
                    &&& step.1 == -1 ==> at.y == 0
                    &&& step.2 == 1 ==> at.z == 1
                    &&& step.2 == -1 ==> at.z == 0
                }
        }),
{
    let corners = direction.spec_corners();
    let first = corners[0];
    let second = corners[1];
    let third = corners[2];
    let fourth = corners[3];
    match direction {
        Direction::Top => {
            assert(first == LocalPosition { x: 0, y: 1, z: 0 });
            assert(second == LocalPosition { x: 1, y: 1, z: 0 });
            assert(third == LocalPosition { x: 1, y: 1, z: 1 });
            assert(fourth == LocalPosition { x: 0, y: 1, z: 1 });
        },
        Direction::Bottom => {
            assert(first == LocalPosition { x: 1, y: 0, z: 1 });
            assert(second == LocalPosition { x: 1, y: 0, z: 0 });
            assert(third == LocalPosition { x: 0, y: 0, z: 0 });
            assert(fourth == LocalPosition { x: 0, y: 0, z: 1 });
        },
        Direction::Left => {
            assert(first == LocalPosition { x: 0, y: 1, z: 0 });
            assert(second == LocalPosition { x: 0, y: 1, z: 1 });
            assert(third == LocalPosition { x: 0, y: 0, z: 1 });
            assert(fourth == LocalPosition { x: 0, y: 0, z: 0 });
        },
        Direction::Right => {
            assert(first == LocalPosition { x: 1, y: 1, z: 1 });
            assert(second == LocalPosition { x: 1, y: 1, z: 0 });
            assert(third == LocalPosition { x: 1, y: 0, z: 0 });
            assert(fourth == LocalPosition { x: 1, y: 0, z: 1 });
        },
        Direction::Front => {
            assert(first == LocalPosition { x: 0, y: 1, z: 1 });
            assert(second == LocalPosition { x: 1, y: 1, z: 1 });
            assert(third == LocalPosition { x: 1, y: 0, z: 1 });
            assert(fourth == LocalPosition { x: 0, y: 0, z: 1 });
        },
        Direction::Back => {
            assert(first == LocalPosition { x: 1, y: 1, z: 0 });
            assert(second == LocalPosition { x: 0, y: 1, z: 0 });
            assert(third == LocalPosition { x: 0, y: 0, z: 0 });
            assert(fourth == LocalPosition { x: 1, y: 0, z: 0 });
        },
    }
    lemma_unit_turn(first, second, third);
    lemma_unit_turn(third, fourth, first);
}

/// A visible side of a block: the block, where it stands in its chunk, the
/// side, and the ambient occlusion of the four corners.
#[derive(Debug, Clone, Copy)]
pub struct Face {
    pub block: Block,
    pub direction: Direction,
    pub position: LocalPosition,
    pub ao: [u8; 4],
}

/// The six indices of the two triangles of the quad number `index`.
pub open spec fn quad_indices(index: u16) -> Seq<u16> {
    let first = 4 * index;
    seq![
        first as u16,
        (first + 1) as u16,
        (first + 2) as u16,
        (first + 2) as u16,
        (first + 3) as u16,
        first as u16,
    ]
}

/// A face as contracts speak of it.
pub struct FaceModel {
    pub block: Block,
    pub direction: Direction,
    pub position: LocalPosition,
    pub ao: Seq<u8>,
}

impl View for Face {
    type V = FaceModel;

    open spec fn view(&self) -> FaceModel {
        FaceModel {
            block: self.block,
            direction: self.direction,
            position: self.position,
            ao: self.ao@,
        }
    }
}

impl FaceModel {
    /// Whether the face can be drawn: the block has a texture, stands in
    /// the chunk, and each of the four occlusion values is one of the four
    /// levels.
    pub open spec fn valid(self) -> bool {
        &&& self.block != Block::Air
        &&& self.position.in_chunk()
        &&& self.ao.len() == 4
        &&& forall|corner: int| 0 <= corner < 4 ==> #[trigger] self.ao[corner] <= 3
    }

    /// The vertex at the corner number `corner` of the face: the corner of
    /// the block, with the occlusion of that corner, the block's texture
    /// and the ordinal of the direction.
    pub open spec fn vertex(self, corner: int) -> Vertex {
        let at = self.direction.spec_corners()[corner];
        Vertex(
            packed(
                LocalPosition {
                    x: (self.position.x + at.x) as u32,
                    y: (self.position.y + at.y) as u32,
                    z: (self.position.z + at.z) as u32,
                },
                self.ao[corner],
                self.block.spec_texture_id(),
                self.direction.spec_ordinal(),
            ) as u32,
        )
    }

    /// The four vertices of the face, in winding order.
    pub open spec fn vertices(self) -> Seq<Vertex> {
        Seq::new(4, |corner: int| self.vertex(corner))
    }
}

impl Face {
    pub fn new(block: Block, position: LocalPosition, ao: [u8; 4], direction: Direction) -> (face:
        Self)
        ensures
            face == (Face { block, direction, position, ao }),
    {
        Face { block, direction, position, ao }
    }

    /// The six indices of the quad number `index`: two triangles, the
    /// pattern `[0, 1, 2, 2, 3, 0]` moved to the quad's four vertices.
    pub fn indices(index: u16) -> (indices: [u16; 6])
        requires
            index < MAX_QUADS,
        ensures
            indices@ == quad_indices(index),
    {
        let offset: u16 = index * 4;
        let indices = [offset, 1 + offset, 2 + offset, 2 + offset, 3 + offset, offset];
        assert(indices@ =~= quad_indices(index));
        indices
    }

    fn vertex(&self, corners: &[LocalPosition; 4], corner: usize) -> (vertex: Vertex)
        requires
            self@.valid(),
            corners@ == self.direction.spec_corners(),
            corner < 4,
        ensures
            vertex == self@.vertex(corner as int),
    {
        let at = corners[corner];
        Vertex::new(
            LocalPosition {
                x: self.position.x + at.x,
                y: self.position.y + at.y,
                z: self.position.z + at.z,
            },
            self.ao[corner],
            self.block.texture_id(),
            self.direction.ordinal(),
        )
    }

    /// The four vertices of the face, in winding order.
    pub fn vertices(&self) -> (vertices: [Vertex; 4])
        requires
            self@.valid(),
        ensures
            vertices@ == self@.vertices(),
    {
        let corners = self.direction.corners();
        let vertices = [
            self.vertex(&corners, 0),
            self.vertex(&corners, 1),
            self.vertex(&corners, 2),
            self.vertex(&corners, 3),
        ];
        assert(vertices@ =~= self@.vertices());
        vertices
    }
}

} // verus!
