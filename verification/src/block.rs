//! Block kinds and how they take part in face culling.

use vstd::prelude::*;

verus! {

/// How a block takes part in face culling.
#[derive(Debug, Clone, Copy, PartialEq, Eq, Structural, Hash)]
pub enum Visibility {
    Opaque,
    Transparent,
    Empty,
}

/// The smallest unit of the world.
#[derive(Debug, Clone, Copy, PartialEq, Eq, Structural, Hash)]
pub enum Block {
    Air,
    Grass,
    Dirt,
    Sand,
    Stone,
    Water,
    Snow,
    Ice,
    Gravel,
}

impl Default for Block {
    fn default() -> (block: Self)
        ensures
            block == Block::Air,
    {
        Block::Air
    }
}

impl Block {
    /// `Air` is the only empty block; liquids and ice let light through.
    pub open spec fn spec_visibility(&self) -> Visibility {
        match self {
            Block::Air => Visibility::Empty,
            Block::Water | Block::Ice => Visibility::Transparent,
            _ => Visibility::Opaque,
        }
    }

    /// Index of the block's tile in the texture atlas, in row-major order.
    pub open spec fn spec_texture_id(&self) -> u32 {
        match self {
            Block::Air | Block::Grass => 0,
            Block::Water => 1,
            Block::Dirt => 2,
            Block::Sand => 3,
            Block::Stone => 4,
            Block::Snow => 5,
            Block::Ice => 6,
            Block::Gravel => 7,
        }
    }

    #[verifier::when_used_as_spec(spec_visibility)]
    pub fn visibility(&self) -> (visibility: Visibility)
        ensures
            visibility == self.spec_visibility(),
    {
        match self {
            Block::Air => Visibility::Empty,
            Block::Water | Block::Ice => Visibility::Transparent,
            _ => Visibility::Opaque,
        }
    }

    /// `Air` is never drawn and has no tile.
    #[verifier::when_used_as_spec(spec_texture_id)]
    pub fn texture_id(&self) -> (id: u32)
        requires
            *self != Block::Air,
        ensures
            id == self.spec_texture_id(),
            id < 64,
    {
        match self {
            Block::Air | Block::Grass => 0,
            Block::Water => 1,
            Block::Dirt => 2,
            Block::Sand => 3,
            Block::Stone => 4,
            Block::Snow => 5,
            Block::Ice => 6,
            Block::Gravel => 7,
        }
    }

    pub open spec fn spec_is_opaque(&self) -> bool {
        self.spec_visibility() == Visibility::Opaque
    }

    pub open spec fn spec_is_transparent(&self) -> bool {
        self.spec_visibility() == Visibility::Transparent
    }

    pub open spec fn spec_is_empty(&self) -> bool {
        self.spec_visibility() == Visibility::Empty
    }

    #[verifier::when_used_as_spec(spec_is_opaque)]
    pub fn is_opaque(&self) -> (opaque: bool)
        ensures
            opaque == self.spec_is_opaque(),
    {
        matches!(self.visibility(), Visibility::Opaque)
    }

    #[verifier::when_used_as_spec(spec_is_transparent)]
    pub fn is_transparent(&self) -> (transparent: bool)
        ensures
            transparent == self.spec_is_transparent(),
    {
        matches!(self.visibility(), Visibility::Transparent)
    }

    #[verifier::when_used_as_spec(spec_is_empty)]
    pub fn is_empty(&self) -> (empty: bool)
        ensures
            empty == self.spec_is_empty(),
            empty <==> *self == Block::Air,
    {
        matches!(self.visibility(), Visibility::Empty)
    }
}

} // verus!
