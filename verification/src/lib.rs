//! Core logic of a tile-based isometric scene: a grid coordinate system, a
//! sprite-atlas allocator, a map-description pipeline with an idempotent
//! diff-and-rebuild synchronizer, and an orbit-camera controller.
//!
//! All geometry is carried in 16.16 fixed-point integers, so every derived
//! quantity (translations, rotations, UV rectangles, camera poses) has an
//! exact arithmetic meaning that the contracts state directly.

pub mod atlas;
pub mod camera;
pub mod fx;
pub mod grid;
pub mod mapfile;
pub mod material;
pub mod mesh;
pub mod scene;
pub mod sync;
pub mod vec3;
