//! The packed vertex that the mesher emits: one 32-bit word per corner of a
//! face.

use crate::position::LocalPosition;
use vstd::prelude::*;

verus! {

/// A corner of a face, packed into one word. From the top bit down: five
/// bits each of `x`, `y` and `z`, two bits of ambient occlusion, six bits of
/// texture id, three bits of direction, and six bits that stay zero.
#[derive(Debug, Clone, Copy, PartialEq, Eq, Structural, Hash)]
pub struct Vertex(pub u32);

/// The word that holds the given fields, each at its place.
pub open spec fn packed(position: LocalPosition, ao: u8, texture_id: u32, direction: u32) -> int {
    position.x * 0x800_0000 + position.y * 0x40_0000 + position.z * 0x2_0000 + ao * 0x8000
        + texture_id * 0x200 + direction * 0x40
}

/// Whether the fields fit into the places that a vertex has for them.
pub open spec fn packable(position: LocalPosition, ao: u8, texture_id: u32, direction: u32) -> bool {
    &&& position.x <= 16 && position.y <= 16 && position.z <= 16
    &&& ao <= 3
    &&& texture_id <= 63
    &&& direction <= 5
}

impl Vertex {
    pub open spec fn spec_bits(&self) -> u32 {
        self.0
    }

    pub open spec fn spec_position(&self) -> LocalPosition {
        LocalPosition {
            x: self.0 / 0x800_0000,
            y: self.0 / 0x40_0000 % 32,
            z: self.0 / 0x2_0000 % 32,
        }
    }

    pub open spec fn spec_ao(&self) -> u8 {
        (self.0 / 0x8000 % 4) as u8
    }

    pub open spec fn spec_texture_id(&self) -> u32 {
        self.0 / 0x200 % 64
    }

    pub open spec fn spec_direction(&self) -> u32 {
        self.0 / 0x40 % 8
    }

    /// Packs a corner at `position`, which is local to the chunk and may lie
    /// on its far faces, with its ambient occlusion, the block's texture and
    /// the ordinal of the face's direction. Unpacking gives the same fields
    /// back.
    pub fn new(position: LocalPosition, ao: u8, texture_id: u32, direction: u32) -> (vertex: Self)
        requires
            packable(position, ao, texture_id, direction),
        ensures
            vertex.spec_bits() == packed(position, ao, texture_id, direction),
            vertex.spec_position() == position,
            vertex.spec_ao() == ao,
            vertex.spec_texture_id() == texture_id,
            vertex.spec_direction() == direction,
    {
        let x = position.x;
        let y = position.y;
        let z = position.z;
        let shade: u32 = ao as u32;
        let value: u32 = (x << 27) | (y << 22) | (z << 17) | (shade << 15) | (texture_id << 9) | (
        direction << 6);
        proof {
            lemma_fields(x, y, z, shade, texture_id, direction);
        }
        Vertex(value)
    }

    /// The packed word, as the vertex buffer holds it.
    #[verifier::when_used_as_spec(spec_bits)]
    pub fn bits(&self) -> (bits: u32)
        ensures
            bits == self.spec_bits(),
    {
        self.0
    }

    #[verifier::when_used_as_spec(spec_position)]
    pub fn position(&self) -> (position: LocalPosition)
        ensures
            position == self.spec_position(),
    {
        let bits = self.0;
        let x: u32 = bits >> 27;
        let y: u32 = (bits >> 22) & 31;
        let z: u32 = (bits >> 17) & 31;
        assert(bits >> 27 == bits / 0x800_0000) by (bit_vector);
        assert((bits >> 22) & 31 == bits / 0x40_0000 % 32) by (bit_vector);
        assert((bits >> 17) & 31 == bits / 0x2_0000 % 32) by (bit_vector);
        LocalPosition { x, y, z }
    }

    #[verifier::when_used_as_spec(spec_ao)]
    pub fn ao(&self) -> (ao: u8)
        ensures
            ao == self.spec_ao(),
    {
        let bits = self.0;
        let ao: u32 = (bits >> 15) & 3;
        assert((bits >> 15) & 3 == bits / 0x8000 % 4) by (bit_vector);
        ao as u8
    }

    #[verifier::when_used_as_spec(spec_texture_id)]
    pub fn texture_id(&self) -> (texture_id: u32)
        ensures
            texture_id == self.spec_texture_id(),
    {
        let bits = self.0;
        assert((bits >> 9) & 63 == bits / 0x200 % 64) by (bit_vector);
        (bits >> 9) & 63
    }

    #[verifier::when_used_as_spec(spec_direction)]
    pub fn direction(&self) -> (direction: u32)
        ensures
            direction == self.spec_direction(),
    {
        let bits = self.0;
        assert((bits >> 6) & 7 == bits / 0x40 % 8) by (bit_vector);
        (bits >> 6) & 7
    }
}

/// The fields of a vertex do not overlap: the shifted fields add up to the
/// word, and each is read back by a division and a remainder.
proof fn lemma_fields(x: u32, y: u32, z: u32, shade: u32, texture_id: u32, direction: u32)
    by (bit_vector)
    requires
        x <= 16,
        y <= 16,
        z <= 16,
        shade <= 3,
        texture_id <= 63,
        direction <= 5,
    ensures
        ({
            let value: u32 = (x << 27) | (y << 22) | (z << 17) | (shade << 15) | (texture_id << 9)
                | (direction << 6);
            &&& value == x * 0x800_0000 + y * 0x40_0000 + z * 0x2_0000 + shade * 0x8000
                + texture_id * 0x200 + direction * 0x40
            &&& value / 0x800_0000 == x
            &&& value / 0x40_0000 % 32 == y
            &&& value / 0x2_0000 % 32 == z
            &&& value / 0x8000 % 4 == shade
            &&& value / 0x200 % 64 == texture_id
            &&& value / 0x40 % 8 == direction
        }),
{
}

/// Unpacking the word that holds some fields gives those fields back.
pub proof fn lemma_pack_round_trip(position: LocalPosition, ao: u8, texture_id: u32, direction: u32)
    requires
        packable(position, ao, texture_id, direction),
    ensures
        0 <= packed(position, ao, texture_id, direction) <= u32::MAX,
        ({
            let vertex = Vertex(packed(position, ao, texture_id, direction) as u32);
            &&& vertex.spec_position() == position
            &&& vertex.spec_ao() == ao
            &&& vertex.spec_texture_id() == texture_id
            &&& vertex.spec_direction() == direction
        }),
{
    lemma_fields(position.x, position.y, position.z, ao as u32, texture_id, direction);
}

} // verus!
