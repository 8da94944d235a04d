//! Meshing: which faces of a chunk are drawn, the ambient occlusion baked
//! into their corners, and the vertex and index lists they make up.

use crate::block::{Block, Visibility};
use crate::face::{quad_indices, Direction, Face, FaceModel, MAX_QUADS};
use crate::lists::lemma_push_contains;
use crate::neighborhood::ChunkNeighborhood;
use crate::position::LocalPosition;
use crate::vertex::Vertex;
use vstd::prelude::*;

verus! {

/// Number of blocks that the mesher visits in a chunk.
pub const MESHING_CELLS: u32 = 4096;

/// The vertices of `faces`, four for each face, in order.
pub open spec fn vertices_of(faces: Seq<FaceModel>) -> Seq<Vertex>
    decreases faces.len(),
{
    if faces.len() == 0 {
        Seq::empty()
    } else {
        vertices_of(faces.drop_last()) + faces.last().vertices()
    }
}

/// The indices of the first `quads` quads, six for each quad, in order.
pub open spec fn indices_of(quads: nat) -> Seq<u16>
    decreases quads,
{
    if quads == 0 {
        Seq::empty()
    } else {
        indices_of((quads - 1) as nat) + quad_indices((quads - 1) as u16)
    }
}

/// The vertices and indices of the faces of a chunk, as they are uploaded.
#[derive(Debug, Clone)]
pub struct RawMesh {
    verticies: Vec<Vertex>,
    indices: Vec<u16>,
    offset: u16,
}

impl RawMesh {
    pub closed spec fn spec_verticies(&self) -> Seq<Vertex> {
        self.verticies@
    }

    pub closed spec fn spec_indices(&self) -> Seq<u16> {
        self.indices@
    }

    /// Number of faces pushed so far.
    pub closed spec fn spec_quads(&self) -> nat {
        self.offset as nat
    }

    /// What every constructor establishes and every method keeps: four
    /// vertices and six indices for each quad, and no more quads than the
    /// indices can address.
    pub open spec fn inv(&self) -> bool {
        &&& self.spec_quads() <= MAX_QUADS
        &&& self.spec_verticies().len() == 4 * self.spec_quads()
        &&& self.spec_indices().len() == 6 * self.spec_quads()
        &&& self.spec_indices() == indices_of(self.spec_quads())
    }

    /// Whether the mesh is exactly the mesh of `faces`.
    pub open spec fn holds(&self, faces: Seq<FaceModel>) -> bool {
        &&& self.spec_quads() == faces.len()
        &&& self.spec_verticies() == vertices_of(faces)
        &&& self.spec_indices() == indices_of(faces.len())
    }

    /// A mesh without faces.
    pub fn new() -> (mesh: Self)
        ensures
            mesh.inv(),
            mesh.holds(Seq::empty()),
            mesh.spec_quads() == 0,
    {
        RawMesh { verticies: Vec::new(), indices: Vec::new(), offset: 0 }
    }

    /// Appends the four vertices of `block_face` and the six indices of the
    /// next quad.
    pub fn push_face(&mut self, block_face: Face)
        requires
            old(self).inv(),
            old(self).spec_quads() < MAX_QUADS,
            block_face@.valid(),
        ensures
            final(self).inv(),
            final(self).spec_quads() == old(self).spec_quads() + 1,
            final(self).spec_verticies() == old(self).spec_verticies() + block_face@.vertices(),
            final(self).spec_indices() == old(self).spec_indices() + quad_indices(
                old(self).spec_quads() as u16,
            ),
            forall|faces: Seq<FaceModel>|
                old(self).holds(faces) ==> #[trigger] final(self).holds(faces.push(block_face@)),
    {
        let vertices = block_face.vertices();
        let indices = Face::indices(self.offset);
        self.verticies.push(vertices[0]);
        self.verticies.push(vertices[1]);
        self.verticies.push(vertices[2]);
        self.verticies.push(vertices[3]);
        self.indices.push(indices[0]);
        self.indices.push(indices[1]);
        self.indices.push(indices[2]);
        self.indices.push(indices[3]);
        self.indices.push(indices[4]);
        self.indices.push(indices[5]);
        self.offset += 1;
        proof {
            assert(self.verticies@ =~= old(self).verticies@ + block_face@.vertices());
            assert(self.indices@ =~= old(self).indices@ + quad_indices(old(self).offset));
            assert forall|faces: Seq<FaceModel>| old(self).holds(faces) implies #[trigger] self.holds(
                faces.push(block_face@),
            ) by {
                assert(faces.push(block_face@).drop_last() =~= faces);
            }
        }
    }

    /// The vertices, four for each face.
    pub fn verticies(&self) -> (vertices: &[Vertex])
        ensures
            vertices@ == self.spec_verticies(),
    {
        self.verticies.as_slice()
    }

    /// The indices, six for each face.
    pub fn indices(&self) -> (indices: &[u16])
        ensures
            indices@ == self.spec_indices(),
    {
        self.indices.as_slice()
    }

    /// Number of faces in the mesh.
    pub fn quads(&self) -> (quads: u16)
        ensures
            quads == self.spec_quads(),
    {
        self.offset
    }

    /// Whether the mesh has no face; such a mesh is not uploaded.
    pub fn is_empty(&self) -> (empty: bool)
        ensures
            empty == (self.spec_quads() == 0),
    {
        self.offset == 0
    }
}

impl Default for RawMesh {
    fn default() -> (mesh: Self)
        ensures
            mesh.inv(),
            mesh.holds(Seq::empty()),
    {
        RawMesh::new()
    }
}

/// How bright a corner of a face is, from the three blocks around it on
/// the outer side of the face: `3` with none of them opaque, one less for
/// each that is, and `0` as soon as both side blocks are.
pub open spec fn ao_level(side1: bool, corner: bool, side2: bool) -> u8 {
    if side1 && side2 {
        0
    } else {
        (3 - (if side1 { 1int } else { 0 }) - (if corner { 1int } else { 0 }) - (if side2 {
            1int
        } else {
            0
        })) as u8
    }
}

pub fn ao_value(side1: bool, corner: bool, side2: bool) -> (ao: u8)
    ensures
        ao == ao_level(side1, corner, side2),
        ao <= 3,
{
    match (side1, corner, side2) {
        (true, _, true) => 0,
        (true, true, false) | (false, true, true) => 1,
        (false, false, false) => 3,
        _ => 2,
    }
}

/// The eight blocks around a face on its outer side, as steps from the
/// block of the face: they go round the face, sides at the even places and
/// the corners between them at the odd ones.
pub open spec fn spec_ring(direction: Direction) -> Seq<(i32, i32, i32)> {
    match direction {
        Direction::Left => seq![
            (-1i32, 0i32, -1i32),
            (-1i32, 1i32, -1i32),
            (-1i32, 1i32, 0i32),
            (-1i32, 1i32, 1i32),
            (-1i32, 0i32, 1i32),
            (-1i32, -1i32, 1i32),
            (-1i32, -1i32, 0i32),
            (-1i32, -1i32, -1i32),
        ],
        Direction::Right => seq![
            (1i32, 0i32, 1i32),
            (1i32, 1i32, 1i32),
            (1i32, 1i32, 0i32),
            (1i32, 1i32, -1i32),
            (1i32, 0i32, -1i32),
            (1i32, -1i32, -1i32),
            (1i32, -1i32, 0i32),
            (1i32, -1i32, 1i32),
        ],
        Direction::Bottom => seq![
            (-1i32, -1i32, 0i32),
            (-1i32, -1i32, -1i32),
            (0i32, -1i32, -1i32),
            (1i32, -1i32, -1i32),
            (1i32, -1i32, 0i32),
            (1i32, -1i32, 1i32),
            (0i32, -1i32, 1i32),
            (-1i32, -1i32, 1i32),
        ],
        Direction::Top => seq![
            (-1i32, 1i32, 0i32),
            (-1i32, 1i32, -1i32),
            (0i32, 1i32, -1i32),
            (1i32, 1i32, -1i32),
            (1i32, 1i32, 0i32),
            (1i32, 1i32, 1i32),
            (0i32, 1i32, 1i32),
            (-1i32, 1i32, 1i32),
        ],
        Direction::Back => seq![
            (1i32, 0i32, -1i32),
            (1i32, 1i32, -1i32),
            (0i32, 1i32, -1i32),
            (-1i32, 1i32, -1i32),
            (-1i32, 0i32, -1i32),
            (-1i32, -1i32, -1i32),
            (0i32, -1i32, -1i32),
            (1i32, -1i32, -1i32),
        ],
        Direction::Front => seq![
            (-1i32, 0i32, 1i32),
            (-1i32, 1i32, 1i32),
            (0i32, 1i32, 1i32),
            (1i32, 1i32, 1i32),
            (1i32, 0i32, 1i32),
            (1i32, -1i32, 1i32),
            (0i32, -1i32, 1i32),
            (-1i32, -1i32, 1i32),
        ],
    }
}

fn ring(direction: Direction) -> (offsets: [(i32, i32, i32); 8])
    ensures
        offsets@ == spec_ring(direction),
{
    let offsets: [(i32, i32, i32); 8] = match direction {
        Direction::Left => [
            (-1, 0, -1),
            (-1, 1, -1),
            (-1, 1, 0),
            (-1, 1, 1),
            (-1, 0, 1),
            (-1, -1, 1),
            (-1, -1, 0),
            (-1, -1, -1),
        ],
        Direction::Right => [
            (1, 0, 1),
            (1, 1, 1),
            (1, 1, 0),
            (1, 1, -1),
            (1, 0, -1),
            (1, -1, -1),
            (1, -1, 0),
            (1, -1, 1),
        ],
        Direction::Bottom => [
            (-1, -1, 0),
            (-1, -1, -1),
            (0, -1, -1),
            (1, -1, -1),
            (1, -1, 0),
            (1, -1, 1),
            (0, -1, 1),
            (-1, -1, 1),
        ],
        Direction::Top => [
            (-1, 1, 0),
            (-1, 1, -1),
            (0, 1, -1),
            (1, 1, -1),
            (1, 1, 0),
            (1, 1, 1),
            (0, 1, 1),
            (-1, 1, 1),
        ],
        Direction::Back => [
            (1, 0, -1),
            (1, 1, -1),
            (0, 1, -1),
            (-1, 1, -1),
            (-1, 0, -1),
            (-1, -1, -1),
            (0, -1, -1),
            (1, -1, -1),
        ],
        Direction::Front => [
            (-1, 0, 1),
            (-1, 1, 1),
            (0, 1, 1),
            (1, 1, 1),
            (1, 0, 1),
            (1, -1, 1),
            (0, -1, 1),
            (-1, -1, 1),
        ],
    };
    assert(offsets@ =~= spec_ring(direction));
    offsets
}

/// Whether the window shows an opaque block one `step` from `position`.
pub open spec fn opaque_beside(
    neighborhood: ChunkNeighborhood,
    position: LocalPosition,
    step: (i32, i32, i32),
) -> bool {
    neighborhood.spec_get(position.spec_wrapping_add_signed(step)).spec_is_opaque()
}

/// The ambient occlusion of the four corners of the face of the block at
/// the padded position `position` on the side `direction`: the corner
/// number `c` is shaded by the places `2c`, `2c + 1` and `2c + 2` of the
/// ring around the face, the last place being the first again.
pub open spec fn spec_ao_values(
    neighborhood: ChunkNeighborhood,
    position: LocalPosition,
    direction: Direction,
) -> Seq<u8> {
    let ring = spec_ring(direction);
    Seq::new(
        4,
        |corner: int|
            ao_level(
                opaque_beside(neighborhood, position, ring[2 * corner]),
                opaque_beside(neighborhood, position, ring[2 * corner + 1]),
                opaque_beside(neighborhood, position, ring[(2 * corner + 2) % 8]),
            ),
    )
}

fn is_opaque_beside(
    neighborhood: &ChunkNeighborhood,
    position: LocalPosition,
    step: (i32, i32, i32),
) -> (opaque: bool)
    requires
        neighborhood.inv(),
    ensures
        opaque == opaque_beside(*neighborhood, position, step),
{
    neighborhood.get(position.wrapping_add_signed(step)).is_opaque()
}

pub fn ao_values(neighborhood: &ChunkNeighborhood, position: LocalPosition, direction: Direction) -> (ao:
    [u8; 4])
    requires
        neighborhood.inv(),
    ensures
        ao@ == spec_ao_values(*neighborhood, position, direction),
        forall|corner: int| 0 <= corner < 4 ==> #[trigger] ao@[corner] <= 3,
{
    let offsets = ring(direction);
    let n0 = is_opaque_beside(neighborhood, position, offsets[0]);
    let n1 = is_opaque_beside(neighborhood, position, offsets[1]);
    let n2 = is_opaque_beside(neighborhood, position, offsets[2]);
    let n3 = is_opaque_beside(neighborhood, position, offsets[3]);
    let n4 = is_opaque_beside(neighborhood, position, offsets[4]);
    let n5 = is_opaque_beside(neighborhood, position, offsets[5]);
    let n6 = is_opaque_beside(neighborhood, position, offsets[6]);
    let n7 = is_opaque_beside(neighborhood, position, offsets[7]);
    let ao = [
        ao_value(n0, n1, n2),
        ao_value(n2, n3, n4),
        ao_value(n4, n5, n6),
        ao_value(n6, n7, n0),
    ];
    assert(ao@ =~= spec_ao_values(*neighborhood, position, direction));
    ao
}

/// The sides of a block in the order in which the mesher looks at them.
pub open spec fn spec_side(index: int) -> Direction {
    if index == 0 {
        Direction::Bottom
    } else if index == 1 {
        Direction::Top
    } else if index == 2 {
        Direction::Left
    } else if index == 3 {
        Direction::Right
    } else if index == 4 {
        Direction::Front
    } else {
        Direction::Back
    }
}

fn side(index: usize) -> (direction: Direction)
    requires
        index < 6,
    ensures
        direction == spec_side(index as int),
{
    if index == 0 {
        Direction::Bottom
    } else if index == 1 {
        Direction::Top
    } else if index == 2 {
        Direction::Left
    } else if index == 3 {
        Direction::Right
    } else if index == 4 {
        Direction::Front
    } else {
        Direction::Back
    }
}

/// Whether the side of `current` that touches `neighbor` is drawn: an
/// opaque block shows its side to anything that is not opaque, a
/// transparent block to air and to a transparent block of another kind.
pub open spec fn emits(current: Block, neighbor: Block) -> bool {
    ||| current.spec_visibility() == Visibility::Opaque && neighbor.spec_visibility()
        != Visibility::Opaque
    ||| current.spec_visibility() == Visibility::Transparent && neighbor.spec_visibility()
        == Visibility::Empty
    ||| current.spec_visibility() == Visibility::Transparent && neighbor.spec_visibility()
        == Visibility::Transparent && neighbor != current
}

/// The padded position of the block that the mesher visits at step `cell`:
/// `x` changes slowest and `z` fastest, each from `1` to `16`.
pub open spec fn cell_position(cell: int) -> LocalPosition {
    LocalPosition {
        x: (cell / 256 + 1) as u32,
        y: (cell / 16 % 16 + 1) as u32,
        z: (cell % 16 + 1) as u32,
    }
}

/// The block that the window shows beside `position` on the side
/// `direction`.
pub open spec fn block_beside(
    neighborhood: ChunkNeighborhood,
    position: LocalPosition,
    direction: Direction,
) -> Block {
    neighborhood.spec_get(position.spec_wrapping_add_signed(direction.spec_to_vec()))
}

/// Whether the block at the padded position `position` shows its side
/// `direction`.
pub open spec fn shows(
    neighborhood: ChunkNeighborhood,
    position: LocalPosition,
    direction: Direction,
) -> bool {
    emits(neighborhood.spec_get(position), block_beside(neighborhood, position, direction))
}

/// The face of the block at the padded position `position` on the side
/// `direction`. The face carries the position inside the chunk.
pub open spec fn face_at(
    neighborhood: ChunkNeighborhood,
    position: LocalPosition,
    direction: Direction,
) -> FaceModel {
    FaceModel {
        block: neighborhood.spec_get(position),
        direction,
        position: LocalPosition {
            x: (position.x - 1) as u32,
            y: (position.y - 1) as u32,
            z: (position.z - 1) as u32,
        },
        ao: spec_ao_values(neighborhood, position, direction),
    }
}

/// The faces that the block at `position` shows on its first `sides` sides.
pub open spec fn block_faces(
    neighborhood: ChunkNeighborhood,
    position: LocalPosition,
    sides: int,
) -> Seq<FaceModel>
    decreases sides,
{
    if sides <= 0 {
        Seq::empty()
    } else {
        let before = block_faces(neighborhood, position, sides - 1);
        if shows(neighborhood, position, spec_side(sides - 1)) {
            before.push(face_at(neighborhood, position, spec_side(sides - 1)))
        } else {
            before
        }
    }
}

/// The faces of the first `cells` blocks that the mesher visits.
pub open spec fn faces_upto(neighborhood: ChunkNeighborhood, cells: int) -> Seq<FaceModel>
    decreases cells,
{
    if cells <= 0 {
        Seq::empty()
    } else {
        faces_upto(neighborhood, cells - 1) + block_faces(
            neighborhood,
            cell_position(cells - 1),
            6,
        )
    }
}

/// The faces of the chunk in the middle of the window, in the order in
/// which they enter the mesh.
pub open spec fn spec_faces(neighborhood: ChunkNeighborhood) -> Seq<FaceModel> {
    faces_upto(neighborhood, MESHING_CELLS as int)
}

proof fn lemma_block_faces_grow(
    neighborhood: ChunkNeighborhood,
    position: LocalPosition,
    fewer: int,
    sides: int,
)
    requires
        fewer <= sides,
    ensures
        block_faces(neighborhood, position, fewer).len() <= block_faces(
            neighborhood,
            position,
            sides,
        ).len(),
    decreases sides,
{
    if fewer < sides && sides > 0 {
        lemma_block_faces_grow(neighborhood, position, fewer, sides - 1);
    }
}

proof fn lemma_faces_grow(neighborhood: ChunkNeighborhood, fewer: int, cells: int)
    requires
        fewer <= cells,
    ensures
        faces_upto(neighborhood, fewer).len() <= faces_upto(neighborhood, cells).len(),
    decreases cells,
{
    if fewer < cells && cells > 0 {
        lemma_faces_grow(neighborhood, fewer, cells - 1);
    }
}

proof fn lemma_air_has_no_faces(neighborhood: ChunkNeighborhood, position: LocalPosition, sides: int)
    requires
        neighborhood.spec_get(position) == Block::Air,
    ensures
        block_faces(neighborhood, position, sides) == Seq::<FaceModel>::empty(),
    decreases sides,
{
    if sides > 0 {
        lemma_air_has_no_faces(neighborhood, position, sides - 1);
    }
}

/// The padded position of the block that a face of the centre chunk looks
/// at.
pub open spec fn faced_position(face: FaceModel) -> LocalPosition {
    LocalPosition {
        x: (face.position.x + 1 + face.direction.spec_to_vec().0) as u32,
        y: (face.position.y + 1 + face.direction.spec_to_vec().1) as u32,
        z: (face.position.z + 1 + face.direction.spec_to_vec().2) as u32,
    }
}

proof fn lemma_block_face_origin(
    neighborhood: ChunkNeighborhood,
    position: LocalPosition,
    sides: int,
    index: int,
) -> (origin: int)
    requires
        0 <= index < block_faces(neighborhood, position, sides).len(),
    ensures
        0 <= origin < sides,
        shows(neighborhood, position, spec_side(origin)),
        block_faces(neighborhood, position, sides)[index] == face_at(
            neighborhood,
            position,
            spec_side(origin),
        ),
    decreases sides,
{
    let before = block_faces(neighborhood, position, sides - 1);
    if index < before.len() {
        lemma_block_face_origin(neighborhood, position, sides - 1, index)
    } else {
        sides - 1
    }
}

/// Every face of a mesh is a side that shows of a block of the chunk: the
/// lemma names the step at which the mesher visits the block, and the
/// side.
pub proof fn lemma_face_origin(neighborhood: ChunkNeighborhood, cells: int, index: int) -> (origin: (
    int,
    int,
))
    requires
        cells <= MESHING_CELLS,
        0 <= index < faces_upto(neighborhood, cells).len(),
    ensures
        0 <= origin.0 < cells,
        0 <= origin.1 < 6,
        shows(neighborhood, cell_position(origin.0), spec_side(origin.1)),
        faces_upto(neighborhood, cells)[index] == face_at(
            neighborhood,
            cell_position(origin.0),
            spec_side(origin.1),
        ),
    decreases cells,
{
    let before = faces_upto(neighborhood, cells - 1);
    if index < before.len() {
        lemma_face_origin(neighborhood, cells - 1, index)
    } else {
        let side = lemma_block_face_origin(
            neighborhood,
            cell_position(cells - 1),
            6,
            index - before.len(),
        );
        (cells - 1, side)
    }
}

proof fn lemma_block_face_listed(
    neighborhood: ChunkNeighborhood,
    position: LocalPosition,
    sides: int,
    side: int,
)
    requires
        0 <= side < sides,
        shows(neighborhood, position, spec_side(side)),
    ensures
        block_faces(neighborhood, position, sides).contains(
            face_at(neighborhood, position, spec_side(side)),
        ),
    decreases sides,
{
    let before = block_faces(neighborhood, position, sides - 1);
    let last = face_at(neighborhood, position, spec_side(sides - 1));
    lemma_push_contains(before, last);
    if side < sides - 1 {
        lemma_block_face_listed(neighborhood, position, sides - 1, side);
    }
}

/// Every side that shows of a block of the chunk has its face in the
/// mesh: the side `side` of the block that the mesher visits at step
/// `cell`.
pub proof fn lemma_face_listed(neighborhood: ChunkNeighborhood, cells: int, cell: int, side: int)
    requires
        0 <= cell < cells,
        0 <= side < 6,
        shows(neighborhood, cell_position(cell), spec_side(side)),
    ensures
        faces_upto(neighborhood, cells).contains(
            face_at(neighborhood, cell_position(cell), spec_side(side)),
        ),
    decreases cells,
{
    let face = face_at(neighborhood, cell_position(cell), spec_side(side));
    let before = faces_upto(neighborhood, cells - 1);
    let block = block_faces(neighborhood, cell_position(cells - 1), 6);
    if cell < cells - 1 {
        lemma_face_listed(neighborhood, cells - 1, cell, side);
        let i = choose|i: int| 0 <= i < before.len() && before[i] == face;
        assert((before + block)[i] == face);
    } else {
        lemma_block_face_listed(neighborhood, cell_position(cell), 6, side);
        let i = choose|i: int| 0 <= i < block.len() && block[i] == face;
        assert((before + block)[before.len() + i] == face);
    }
}

/// In a chunk of opaque blocks no face lies between two of its blocks:
/// every face of the mesh is on the outer layer of the chunk and looks at
/// a block of a neighbouring chunk that is not opaque, which is air unless
/// it is transparent.
pub proof fn lemma_opaque_chunk_shows_only_its_shell(neighborhood: ChunkNeighborhood, index: int)
    requires
        forall|position: LocalPosition|
            position.in_center() ==> (#[trigger] neighborhood.spec_get(position)).spec_is_opaque(),
        0 <= index < spec_faces(neighborhood).len(),
    ensures
        ({
            let face = spec_faces(neighborhood)[index];
            &&& !faced_position(face).in_center()
            &&& faced_position(face).in_window()
            &&& !neighborhood.spec_get(faced_position(face)).spec_is_opaque()
            &&& neighborhood.spec_get(faced_position(face)).spec_visibility()
                != Visibility::Transparent ==> neighborhood.spec_get(faced_position(face))
                == Block::Air
        }),
{
    let origin = lemma_face_origin(neighborhood, MESHING_CELLS as int, index);
    let position = cell_position(origin.0);
    let direction = spec_side(origin.1);
    assert(position.in_center());
    assert(faced_position(face_at(neighborhood, position, direction))
        == position.spec_wrapping_add_signed(direction.spec_to_vec()));
}

/// A chunk of opaque blocks whose six neighbours show it opaque blocks
/// only has an empty mesh.
pub proof fn lemma_enclosed_chunk_has_no_faces(neighborhood: ChunkNeighborhood)
    requires
        forall|position: LocalPosition|
            position.in_window() ==> (#[trigger] neighborhood.spec_get(position)).spec_is_opaque(),
    ensures
        spec_faces(neighborhood).len() == 0,
{
    if spec_faces(neighborhood).len() > 0 {
        lemma_opaque_chunk_shows_only_its_shell(neighborhood, 0);
    }
}

/// Builds the mesh of the chunk in the middle of `neighborhood`: every
/// block that is not air is visited, and each of its sides that shows gets
/// a face with its ambient occlusion. There is no mesh, and `None` comes
/// back, exactly when the chunk has more faces than 16-bit indices can
/// address.
pub fn create_raw_mesh(neighborhood: ChunkNeighborhood) -> (mesh: Option<RawMesh>)
    requires
        neighborhood.inv(),
    ensures
        mesh is Some <==> spec_faces(neighborhood).len() <= MAX_QUADS,
        mesh matches Some(built) ==> built.inv() && built.holds(spec_faces(neighborhood)),
{
    let mut mesh = RawMesh::new();
    let ghost mut emitted: Seq<FaceModel> = Seq::empty();
    let mut cell: u32 = 0;
    while cell < MESHING_CELLS
        invariant
            cell <= MESHING_CELLS,
            neighborhood.inv(),
            mesh.inv(),
            mesh.holds(emitted),
            emitted == faces_upto(neighborhood, cell as int),
        decreases MESHING_CELLS - cell,
    {
        let position = LocalPosition { x: cell / 256 + 1, y: cell / 16 % 16 + 1, z: cell % 16 + 1 };
        assert(position == cell_position(cell as int));
        let current = neighborhood.get(position);
        if current.visibility() != Visibility::Empty {
            let mut index: usize = 0;
            while index < 6
                invariant
                    index <= 6,
                    cell < MESHING_CELLS,
                    neighborhood.inv(),
                    position == cell_position(cell as int),
                    current == neighborhood.spec_get(position),
                    current != Block::Air,
                    mesh.inv(),
                    mesh.holds(emitted),
                    emitted == faces_upto(neighborhood, cell as int) + block_faces(
                        neighborhood,
                        position,
                        index as int,
                    ),
                decreases 6 - index,
            {
                let direction = side(index);
                let neighbor = neighborhood.get(position.wrapping_add_signed(direction.to_vec()));
                if !(neighbor.visibility() == Visibility::Opaque || neighbor == current) {
                    assert(shows(neighborhood, position, direction));
                    if mesh.quads() >= MAX_QUADS {
                        proof {
                            lemma_block_faces_grow(neighborhood, position, index + 1, 6);
                            lemma_faces_grow(neighborhood, cell + 1, MESHING_CELLS as int);
                        }
                        return None;
                    }
                    let ao = ao_values(&neighborhood, position, direction);
                    let face = Face::new(
                        current,
                        LocalPosition { x: position.x - 1, y: position.y - 1, z: position.z - 1 },
                        ao,
                        direction,
                    );
                    assert(face@ == face_at(neighborhood, position, direction));
                    mesh.push_face(face);
                    proof {
                        let grown = emitted.push(face@);
                        assert(grown =~= faces_upto(neighborhood, cell as int) + block_faces(
                            neighborhood,
                            position,
                            index + 1,
                        ));
                        emitted = grown;
                    }
                } else {
                    assert(!shows(neighborhood, position, direction));
                }
                index += 1;
            }
        } else {
            proof {
                lemma_air_has_no_faces(neighborhood, position, 6);
                assert(emitted =~= faces_upto(neighborhood, cell as int) + block_faces(
                    neighborhood,
                    position,
                    6,
                ));
            }
        }
        cell += 1;
    }
    Some(mesh)
}

} // verus!
