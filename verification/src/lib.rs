//! Core of a streaming voxel world: blocks and chunks, neighbourhood meshing
//! with baked ambient occlusion, and the scheduler that decides which columns
//! to generate and which chunk meshes to keep alive around a moving origin.

pub mod atlas;
pub mod block;
pub mod chunk;
pub mod chunk_map;
pub mod face;
pub mod generator;
pub mod lists;
pub mod meshes;
pub mod neighborhood;
pub mod offsets;
pub mod position;
pub mod registry;
pub mod vertex;
pub mod world;
