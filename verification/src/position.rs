//! Integer coordinates: blocks inside a chunk, chunks in the world and
//! columns of chunks, with the injective keys under which they are stored.

use vstd::arithmetic::div_mod::lemma_fundamental_div_mod_converse;
use vstd::prelude::*;

verus! {

/// Edge length of a chunk, in blocks.
pub const CHUNK_SIZE: usize = 16;

/// Number of chunks stacked in one column.
pub const SECTION_SIZE: usize = 16;

/// A block coordinate relative to a chunk, a column, or the padded window
/// around a chunk.
#[derive(Debug, Clone, Copy, PartialEq, Eq, Structural, Hash)]
pub struct LocalPosition {
    pub x: u32,
    pub y: u32,
    pub z: u32,
}

impl LocalPosition {
    pub fn new(x: u32, y: u32, z: u32) -> (position: Self)
        ensures
            position == (LocalPosition { x, y, z }),
    {
        LocalPosition { x, y, z }
    }

    pub fn with_y(self, y: u32) -> (position: Self)
        ensures
            position == (LocalPosition { x: self.x, y, z: self.z }),
    {
        LocalPosition { x: self.x, y, z: self.z }
    }

    /// The position moved by `offset`, each axis wrapping around at the
    /// boundary of the type.
    pub open spec fn spec_wrapping_add_signed(self, offset: (i32, i32, i32)) -> Self {
        LocalPosition {
            x: wrap_u32(self.x + offset.0),
            y: wrap_u32(self.y + offset.1),
            z: wrap_u32(self.z + offset.2),
        }
    }

    pub fn wrapping_add_signed(self, offset: (i32, i32, i32)) -> (position: Self)
        ensures
            position == self.spec_wrapping_add_signed(offset),
    {
        LocalPosition {
            x: self.x.wrapping_add_signed(offset.0),
            y: self.y.wrapping_add_signed(offset.1),
            z: self.z.wrapping_add_signed(offset.2),
        }
    }
}

/// `value` reduced into the range of `u32`.
pub open spec fn wrap_u32(value: int) -> u32 {
    if value < 0 {
        (value + 0x1_0000_0000) as u32
    } else if value > u32::MAX {
        (value - 0x1_0000_0000) as u32
    } else {
        value as u32
    }
}

/// `value` moved from the signed into the unsigned 32-bit range, keeping the
/// order.
pub open spec fn biased(value: i32) -> int {
    value + 0x8000_0000
}

/// The chunk coordinate that holds `block` along one axis: the floor of
/// `block / 16`.
pub open spec fn chunk_of(block: i32) -> int {
    block as int / 16
}

fn square(value: i32) -> (squared: u64)
    ensures
        squared == value * value,
        squared <= 0x4000_0000_0000_0000,
{
    let wide: i64 = value as i64;
    assert(0 <= wide * wide <= 0x4000_0000_0000_0000) by (nonlinear_arith)
        requires
            -0x8000_0000 <= wide < 0x8000_0000,
    ;
    (wide * wide) as u64
}

fn chunk_index(block: i32) -> (index: i32)
    ensures
        index == chunk_of(block),
        -0x0800_0000 <= index < 0x0800_0000,
{
    if block >= 0 {
        block / 16
    } else {
        let below: i32 = -(block + 1);
        -(below / 16) - 1
    }
}

/// The coordinate of a block in the world.
#[derive(Debug, Clone, Copy, PartialEq, Eq, Structural, Hash)]
pub struct BlockPosition {
    pub x: i32,
    pub y: i32,
    pub z: i32,
}

impl BlockPosition {
    pub fn new(x: i32, y: i32, z: i32) -> (position: Self)
        ensures
            position == (BlockPosition { x, y, z }),
    {
        BlockPosition { x, y, z }
    }
}

/// A chunk coordinate: the chunk covers the blocks from `16 * position` to
/// `16 * position + 15` on each axis.
#[derive(Debug, Clone, Copy, PartialEq, Eq, Structural, Hash)]
pub struct ChunkPosition {
    pub x: i32,
    pub y: i32,
    pub z: i32,
}

impl ChunkPosition {
    pub fn new(x: i32, y: i32, z: i32) -> (position: Self)
        ensures
            position == (ChunkPosition { x, y, z }),
    {
        ChunkPosition { x, y, z }
    }

    /// The chunk that holds the world block `block`.
    pub open spec fn spec_containing(block: BlockPosition) -> ChunkPosition {
        ChunkPosition {
            x: chunk_of(block.x) as i32,
            y: chunk_of(block.y) as i32,
            z: chunk_of(block.z) as i32,
        }
    }

    /// Whether every axis is within the range that `containing` returns.
    pub open spec fn is_origin(self) -> bool {
        &&& -0x0800_0000 <= self.x < 0x0800_0000
        &&& -0x0800_0000 <= self.y < 0x0800_0000
        &&& -0x0800_0000 <= self.z < 0x0800_0000
    }

    pub fn containing(block: BlockPosition) -> (position: Self)
        ensures
            position == Self::spec_containing(block),
            position.is_origin(),
            16 * position.x <= block.x < 16 * position.x + 16,
            16 * position.y <= block.y < 16 * position.y + 16,
            16 * position.z <= block.z < 16 * position.z + 16,
    {
        ChunkPosition {
            x: chunk_index(block.x),
            y: chunk_index(block.y),
            z: chunk_index(block.z),
        }
    }

    pub open spec fn spec_length_squared(self) -> int {
        self.x * self.x + self.y * self.y + self.z * self.z
    }

    /// Squared distance from the zero position.
    pub fn length_squared(self) -> (length: u64)
        ensures
            length == self.spec_length_squared(),
    {
        square(self.x) + square(self.y) + square(self.z)
    }

    /// The key under which the position is stored; no two positions share
    /// one.
    pub open spec fn spec_key(self) -> u128 {
        (biased(self.x) * 0x1_0000_0000_0000_0000 + biased(self.y) * 0x1_0000_0000 + biased(
            self.z,
        )) as u128
    }

    pub fn key(self) -> (key: u128)
        ensures
            key == self.spec_key(),
    {
        let x: u128 = (self.x as i64 + 0x8000_0000) as u128;
        let y: u128 = (self.y as i64 + 0x8000_0000) as u128;
        let z: u128 = (self.z as i64 + 0x8000_0000) as u128;
        x * 0x1_0000_0000_0000_0000 + y * 0x1_0000_0000 + z
    }

    pub open spec fn spec_from_key(key: u128) -> ChunkPosition {
        ChunkPosition {
            x: ((key / 0x1_0000_0000_0000_0000) % 0x1_0000_0000 - 0x8000_0000) as i32,
            y: ((key / 0x1_0000_0000) % 0x1_0000_0000 - 0x8000_0000) as i32,
            z: (key % 0x1_0000_0000 - 0x8000_0000) as i32,
        }
    }

    /// The position stored under `key`.
    pub fn from_key(key: u128) -> (position: Self)
        ensures
            position == Self::spec_from_key(key),
    {
        let x: i64 = ((key / 0x1_0000_0000_0000_0000) % 0x1_0000_0000) as i64 - 0x8000_0000;
        let y: i64 = ((key / 0x1_0000_0000) % 0x1_0000_0000) as i64 - 0x8000_0000;
        let z: i64 = (key % 0x1_0000_0000) as i64 - 0x8000_0000;
        ChunkPosition { x: x as i32, y: y as i32, z: z as i32 }
    }

    /// A key names the position it was made from.
    pub proof fn lemma_key_round_trip(self)
        ensures
            Self::spec_from_key(self.spec_key()) == self,
    {
        let x = biased(self.x);
        let y = biased(self.y);
        let z = biased(self.z);
        let key = x * 0x1_0000_0000_0000_0000 + y * 0x1_0000_0000 + z;
        assert(self.spec_key() == key);
        lemma_fundamental_div_mod_converse(
            key,
            0x1_0000_0000_0000_0000,
            x,
            y * 0x1_0000_0000 + z,
        );
        lemma_fundamental_div_mod_converse(x, 0x1_0000_0000, 0, x);
        lemma_fundamental_div_mod_converse(key, 0x1_0000_0000, x * 0x1_0000_0000 + y, z);
        lemma_fundamental_div_mod_converse(x * 0x1_0000_0000 + y, 0x1_0000_0000, x, y);
    }

    /// Distinct positions have distinct keys.
    pub proof fn lemma_key_injective(self, other: ChunkPosition)
        ensures
            self.spec_key() == other.spec_key() <==> self == other,
    {
        self.lemma_key_round_trip();
        other.lemma_key_round_trip();
    }

    pub open spec fn spec_offset(self, offset: ChunkPosition) -> ChunkPosition {
        ChunkPosition {
            x: (self.x + offset.x) as i32,
            y: (self.y + offset.y) as i32,
            z: (self.z + offset.z) as i32,
        }
    }

    /// Whether `self + offset` stays within the range of the coordinates.
    pub open spec fn can_offset(self, offset: ChunkPosition) -> bool {
        &&& i32::MIN <= self.x + offset.x <= i32::MAX
        &&& i32::MIN <= self.y + offset.y <= i32::MAX
        &&& i32::MIN <= self.z + offset.z <= i32::MAX
    }

    /// The position moved by `offset`, axis by axis.
    pub fn offset(self, offset: ChunkPosition) -> (position: Self)
        requires
            self.can_offset(offset),
        ensures
            position == self.spec_offset(offset),
    {
        ChunkPosition { x: self.x + offset.x, y: self.y + offset.y, z: self.z + offset.z }
    }

    /// The column that the chunk stands in.
    pub open spec fn spec_section(self) -> ChunkSectionPosition {
        ChunkSectionPosition { x: self.x, z: self.z }
    }

    #[verifier::when_used_as_spec(spec_section)]
    pub fn section(self) -> (section: ChunkSectionPosition)
        ensures
            section == self.spec_section(),
    {
        ChunkSectionPosition { x: self.x, z: self.z }
    }
}

/// A column of chunks: every chunk with these `x` and `z`.
#[derive(Debug, Clone, Copy, PartialEq, Eq, Structural, Hash)]
pub struct ChunkSectionPosition {
    pub x: i32,
    pub z: i32,
}

impl ChunkSectionPosition {
    pub fn new(x: i32, z: i32) -> (position: Self)
        ensures
            position == (ChunkSectionPosition { x, z }),
    {
        ChunkSectionPosition { x, z }
    }

    pub open spec fn spec_with_y(self, y: i32) -> ChunkPosition {
        ChunkPosition { x: self.x, y, z: self.z }
    }

    /// The chunk of the column at height `y`.
    #[verifier::when_used_as_spec(spec_with_y)]
    pub fn with_y(self, y: i32) -> (position: ChunkPosition)
        ensures
            position == self.spec_with_y(y),
    {
        ChunkPosition { x: self.x, y, z: self.z }
    }

    /// The four columns that share a side with this one: west, east, north,
    /// south.
    pub open spec fn spec_adjacent(self) -> Seq<ChunkSectionPosition> {
        seq![
            ChunkSectionPosition { x: (self.x - 1) as i32, z: self.z },
            ChunkSectionPosition { x: (self.x + 1) as i32, z: self.z },
            ChunkSectionPosition { x: self.x, z: (self.z - 1) as i32 },
            ChunkSectionPosition { x: self.x, z: (self.z + 1) as i32 },
        ]
    }

    pub fn adjacent(self) -> (neighbors: [ChunkSectionPosition; 4])
        requires
            i32::MIN < self.x < i32::MAX,
            i32::MIN < self.z < i32::MAX,
        ensures
            neighbors@ == self.spec_adjacent(),
    {
        [
            ChunkSectionPosition { x: self.x - 1, z: self.z },
            ChunkSectionPosition { x: self.x + 1, z: self.z },
            ChunkSectionPosition { x: self.x, z: self.z - 1 },
            ChunkSectionPosition { x: self.x, z: self.z + 1 },
        ]
    }

    pub open spec fn spec_length_squared(self) -> int {
        self.x * self.x + self.z * self.z
    }

    /// Squared distance from the zero column.
    pub fn length_squared(self) -> (length: u64)
        ensures
            length == self.spec_length_squared(),
    {
        self.with_y(0).length_squared()
    }

    /// The key under which the column is stored; no two columns share one.
    pub open spec fn spec_key(self) -> u64 {
        (biased(self.x) * 0x1_0000_0000 + biased(self.z)) as u64
    }

    pub fn key(self) -> (key: u64)
        ensures
            key == self.spec_key(),
    {
        let x: u64 = (self.x as i64 + 0x8000_0000) as u64;
        let z: u64 = (self.z as i64 + 0x8000_0000) as u64;
        x * 0x1_0000_0000 + z
    }

    pub open spec fn spec_from_key(key: u64) -> ChunkSectionPosition {
        ChunkSectionPosition {
            x: (key / 0x1_0000_0000 - 0x8000_0000) as i32,
            z: (key % 0x1_0000_0000 - 0x8000_0000) as i32,
        }
    }

    /// A key names the column it was made from.
    pub proof fn lemma_key_round_trip(self)
        ensures
            Self::spec_from_key(self.spec_key()) == self,
    {
        lemma_fundamental_div_mod_converse(
            self.spec_key() as int,
            0x1_0000_0000,
            biased(self.x),
            biased(self.z),
        );
    }

    /// Distinct columns have distinct keys.
    pub proof fn lemma_key_injective(self, other: ChunkSectionPosition)
        ensures
            self.spec_key() == other.spec_key() <==> self == other,
    {
        self.lemma_key_round_trip();
        other.lemma_key_round_trip();
    }

    pub open spec fn spec_offset(self, offset: ChunkSectionPosition) -> ChunkSectionPosition {
        ChunkSectionPosition { x: (self.x + offset.x) as i32, z: (self.z + offset.z) as i32 }
    }

    pub open spec fn can_offset(self, offset: ChunkSectionPosition) -> bool {
        &&& i32::MIN <= self.x + offset.x <= i32::MAX
        &&& i32::MIN <= self.z + offset.z <= i32::MAX
    }

    /// The column moved by `offset`, axis by axis.
    pub fn offset(self, offset: ChunkSectionPosition) -> (position: Self)
        requires
            self.can_offset(offset),
        ensures
            position == self.spec_offset(offset),
    {
        ChunkSectionPosition { x: self.x + offset.x, z: self.z + offset.z }
    }
}

impl core::ops::Add for ChunkSectionPosition {
    type Output = Self;

    fn add(self, other: Self) -> (sum: Self) {
        self.offset(other)
    }
}

impl vstd::std_specs::ops::AddSpecImpl for ChunkSectionPosition {
    open spec fn obeys_add_spec() -> bool {
        true
    }

    open spec fn add_req(self, other: Self) -> bool {
        self.can_offset(other)
    }

    open spec fn add_spec(self, other: Self) -> Self {
        self.spec_offset(other)
    }
}

impl core::ops::Add for ChunkPosition {
    type Output = Self;

    fn add(self, other: Self) -> (sum: Self) {
        self.offset(other)
    }
}

impl vstd::std_specs::ops::AddSpecImpl for ChunkPosition {
    open spec fn obeys_add_spec() -> bool {
        true
    }

    open spec fn add_req(self, other: Self) -> bool {
        self.can_offset(other)
    }

    open spec fn add_spec(self, other: Self) -> Self {
        self.spec_offset(other)
    }
}

impl From<(i32, i32)> for ChunkSectionPosition {
    fn from(pair: (i32, i32)) -> (position: Self) {
        ChunkSectionPosition { x: pair.0, z: pair.1 }
    }
}

impl vstd::std_specs::convert::FromSpecImpl<(i32, i32)> for ChunkSectionPosition {
    open spec fn obeys_from_spec() -> bool {
        true
    }

    open spec fn from_spec(pair: (i32, i32)) -> Self {
        ChunkSectionPosition { x: pair.0, z: pair.1 }
    }
}

impl From<ChunkPosition> for ChunkSectionPosition {
    fn from(chunk: ChunkPosition) -> (position: Self) {
        ChunkSectionPosition { x: chunk.x, z: chunk.z }
    }
}

impl vstd::std_specs::convert::FromSpecImpl<ChunkPosition> for ChunkSectionPosition {
    open spec fn obeys_from_spec() -> bool {
        true
    }

    open spec fn from_spec(chunk: ChunkPosition) -> Self {
        chunk.spec_section()
    }
}

} // verus!
