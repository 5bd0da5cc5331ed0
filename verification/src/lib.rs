//! Voxel-world game core: a fixed-size chunk of typed blocks, greedy surface
//! extraction that turns the grid into merged textured quads, and the small
//! supporting data types (block/texture catalogues, items, character state).
//!
//! Everything here is plain data and algorithms; window management, GPU
//! resources and floating-point physics live outside this crate and talk to
//! it through the integer-lattice mesh vertices and block grids defined here.

pub mod blocks;
pub mod characters;
pub mod chunk;
pub mod grid;
pub mod items;
pub mod meshing;
pub mod render;
pub mod texture_error;
pub mod textures;
pub mod traits;
pub mod world;
