//! Terrain: which block stands at each height of a column, given the
//! height of its surface and its biome.

use crate::block::Block;
use crate::chunk::ChunkSection;
use crate::position::{ChunkSectionPosition, LocalPosition};
use vstd::prelude::*;

verus! {

/// Height below which a column is flooded.
pub const WATER_HEIGHT: u32 = 40;

/// Height of the lowest surface.
pub const BASE_TERRAIN_HEIGHT: u32 = 24;

/// How far the surface rises above the lowest surface where the height
/// field is at its highest.
pub const TERRAIN_SCALE: u32 = 48;

/// Blocks per unit of the height field.
pub const SCALE: u32 = 64;

/// Blocks per unit of the temperature field.
pub const TEMPERATURE_SCALE: u32 = 256;

/// Number of blocks in a column from bottom to top.
pub const SECTION_HEIGHT: u32 = 256;

/// Number of columns of blocks in a column of chunks.
pub const SECTION_COLUMNS: usize = 256;

/// What makes the columns of the world. A world asks for each column once.
pub trait Generate {
    fn generate_section(&self, position: ChunkSectionPosition) -> (section: ChunkSection)
        ensures
            section.inv(),
    ;
}

/// The climate of a column, which picks its blocks.
#[derive(Debug, Clone, Copy, PartialEq, Eq, Structural, Hash)]
pub enum Biome {
    Plains,
    Winter,
    Desert,
}

impl Biome {
    pub open spec fn spec_terrain_block(&self) -> Block {
        match self {
            Biome::Plains => Block::Grass,
            Biome::Winter => Block::Snow,
            Biome::Desert => Block::Sand,
        }
    }

    pub open spec fn spec_terrain_water(&self) -> Block {
        match self {
            Biome::Plains | Biome::Desert => Block::Water,
            Biome::Winter => Block::Ice,
        }
    }

    pub open spec fn spec_terrain_beach(&self) -> Block {
        match self {
            Biome::Plains | Biome::Desert => Block::Sand,
            Biome::Winter => Block::Gravel,
        }
    }

    /// The block of the ground near the surface.
    #[verifier::when_used_as_spec(spec_terrain_block)]
    pub fn terrain_block(&self) -> (block: Block)
        ensures
            block == self.spec_terrain_block(),
            block != Block::Air,
    {
        match self {
            Biome::Plains => Block::Grass,
            Biome::Winter => Block::Snow,
            Biome::Desert => Block::Sand,
        }
    }

    /// The block that fills a column above its surface up to the water
    /// line.
    #[verifier::when_used_as_spec(spec_terrain_water)]
    pub fn terrain_water(&self) -> (block: Block)
        ensures
            block == self.spec_terrain_water(),
            block != Block::Air,
    {
        match self {
            Biome::Plains | Biome::Desert => Block::Water,
            Biome::Winter => Block::Ice,
        }
    }

    /// The block of a surface that lies at the water line.
    #[verifier::when_used_as_spec(spec_terrain_beach)]
    pub fn terrain_beach(&self) -> (block: Block)
        ensures
            block == self.spec_terrain_beach(),
            block != Block::Air,
    {
        match self {
            Biome::Plains | Biome::Desert => Block::Sand,
            Biome::Winter => Block::Gravel,
        }
    }
}

/// One column of blocks as the height and temperature fields describe it:
/// the blocks below `height` are ground.
#[derive(Debug, Clone, Copy, PartialEq, Eq, Structural, Hash)]
pub struct Column {
    pub height: u32,
    pub biome: Biome,
}

/// The height of the surface where the scaled height field reads
/// `elevation`.
pub open spec fn spec_surface_height(elevation: u32) -> int {
    BASE_TERRAIN_HEIGHT + elevation
}

pub fn surface_height(elevation: u32) -> (height: u32)
    requires
        spec_surface_height(elevation) <= u32::MAX,
    ensures
        height == spec_surface_height(elevation),
{
    BASE_TERRAIN_HEIGHT + elevation
}

/// The block at height `y` of `column`: stone more than three blocks below
/// the surface; above that ground of the biome, or its beach block where
/// the surface lies within one block of the water line; above the surface
/// the biome's water up to the water line, and air over it.
pub open spec fn column_block(column: Column, y: u32) -> Block {
    if y < column.height {
        if column.height - y > 3 {
            Block::Stone
        } else if column.height - y == 1 && WATER_HEIGHT - 1 <= y <= WATER_HEIGHT {
            column.biome.spec_terrain_beach()
        } else {
            column.biome.spec_terrain_block()
        }
    } else if y < WATER_HEIGHT {
        column.biome.spec_terrain_water()
    } else {
        Block::Air
    }
}

impl Column {
    pub fn new(height: u32, biome: Biome) -> (column: Self)
        ensures
            column == (Column { height, biome }),
    {
        Column { height, biome }
    }

    /// The block at height `y` of the column.
    pub fn block_at(&self, y: u32) -> (block: Block)
        ensures
            block == column_block(*self, y),
    {
        if self.height > y {
            let diff = self.height - y;
            if diff == 1 && WATER_HEIGHT - 1 <= y && y <= WATER_HEIGHT {
                self.biome.terrain_beach()
            } else if diff > 3 {
                Block::Stone
            } else {
                self.biome.terrain_block()
            }
        } else if y < WATER_HEIGHT {
            self.biome.terrain_water()
        } else {
            Block::Air
        }
    }
}

impl ChunkSectionPosition {
    /// The world coordinates of the column of blocks at `(x, z)` of the
    /// column of chunks.
    pub open spec fn spec_block_column(&self, x: u32, z: u32) -> (i64, i64) {
        ((self.x * 16 + x) as i64, (self.z * 16 + z) as i64)
    }

    pub fn block_column(&self, x: u32, z: u32) -> (global: (i64, i64))
        requires
            x < 16,
            z < 16,
        ensures
            global == self.spec_block_column(x, z),
            global.0 == self.x * 16 + x,
            global.1 == self.z * 16 + z,
    {
        (self.x as i64 * 16 + x as i64, self.z as i64 * 16 + z as i64)
    }
}

/// Where the description of the column of blocks at `(x, z)` stands in the
/// list that a section is generated from.
pub open spec fn column_index(x: u32, z: u32) -> int {
    x * 16 + z
}

/// Writes the blocks of `column` into the column of blocks at `(x, z)` of
/// `section`. Air is not written: where the column has air, the section
/// keeps what it had.
pub fn fill_column(section: &mut ChunkSection, x: u32, z: u32, column: Column)
    requires
        old(section).inv(),
        x < 16,
        z < 16,
    ensures
        final(section).inv(),
        forall|at: LocalPosition|
            at.in_section() ==> #[trigger] final(section).spec_get(at) == if at.x == x && at.z == z
                && column_block(column, at.y) != Block::Air {
                column_block(column, at.y)
            } else {
                old(section).spec_get(at)
            },
{
    let mut y: u32 = 0;
    while y < SECTION_HEIGHT
        invariant
            y <= SECTION_HEIGHT,
            x < 16,
            z < 16,
            section.inv(),
            forall|at: LocalPosition|
                at.in_section() ==> #[trigger] section.spec_get(at) == if at.x == x && at.z == z
                    && at.y < y && column_block(column, at.y) != Block::Air {
                    column_block(column, at.y)
                } else {
                    old(section).spec_get(at)
                },
        decreases SECTION_HEIGHT - y,
    {
        let block = column.block_at(y);
        if block != Block::Air {
            section.set(LocalPosition { x, y, z }, block);
        }
        y += 1;
    }
}

/// Whether `section` holds the blocks that `columns` describe, the column
/// of blocks at `(x, z)` being described by the entry number `16 * x + z`.
pub open spec fn made_from(section: ChunkSection, columns: Seq<Column>) -> bool {
    forall|at: LocalPosition|
        at.in_section() ==> #[trigger] section.spec_get(at) == column_block(
            columns[column_index(at.x, at.z)],
            at.y,
        )
}

/// Generation has no memory: two sections made from the same columns hold
/// the same blocks.
pub proof fn lemma_generation_is_pure(
    first: ChunkSection,
    second: ChunkSection,
    columns: Seq<Column>,
)
    requires
        made_from(first, columns),
        made_from(second, columns),
    ensures
        forall|at: LocalPosition|
            at.in_section() ==> #[trigger] first.spec_get(at) == second.spec_get(at),
{
}

/// The section whose columns of blocks are described by `columns`.
pub fn section_from_columns(columns: &Vec<Column>) -> (section: ChunkSection)
    requires
        columns@.len() == SECTION_COLUMNS,
    ensures
        section.inv(),
        made_from(section, columns@),
{
    let mut section = ChunkSection::new();
    assert forall|at: LocalPosition| at.in_section() implies #[trigger] section.spec_get(at)
        == Block::Air by {}
    let mut index: usize = 0;
    while index < SECTION_COLUMNS
        invariant
            index <= SECTION_COLUMNS,
            columns@.len() == SECTION_COLUMNS,
            section.inv(),
            forall|at: LocalPosition|
                at.in_section() ==> #[trigger] section.spec_get(at) == if column_index(at.x, at.z)
                    < index {
                    column_block(columns@[column_index(at.x, at.z)], at.y)
                } else {
                    Block::Air
                },
        decreases SECTION_COLUMNS - index,
    {
        let x: u32 = (index / 16) as u32;
        let z: u32 = (index % 16) as u32;
        fill_column(&mut section, x, z, columns[index]);
        index += 1;
    }
    section
}

} // verus!
