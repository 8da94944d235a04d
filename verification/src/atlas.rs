//! The texture atlas: a texture cut into square tiles, one for each kind
//! of block.

use vstd::prelude::*;

verus! {

/// Edge of a tile of the atlas, in pixels.
pub const TILE_SIZE: u32 = 16;

/// The number of rows and columns of tiles in an atlas, as the shader
/// reads them.
#[derive(Debug, Clone, Copy, PartialEq, Eq, Structural, Hash)]
pub struct TextureAtlasUniform {
    pub rows: u32,
    pub columns: u32,
}

impl TextureAtlasUniform {
    /// The rows and columns of whole tiles of edge `texture_size` in a
    /// texture of `width` by `height` pixels.
    pub fn new(width: u32, height: u32, texture_size: u32) -> (uniform: Self)
        requires
            texture_size > 0,
        ensures
            uniform.columns == width as int / texture_size as int,
            uniform.rows == height as int / texture_size as int,
    {
        TextureAtlasUniform { rows: height / texture_size, columns: width / texture_size }
    }
}

} // verus!
