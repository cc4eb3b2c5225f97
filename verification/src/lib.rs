//! Verified wiring of a two-camera, render-to-texture view of a streamed
//! voxel volume.
//!
//! An offscreen scene camera draws into an intermediate texture, a
//! presentation camera shows that texture on the window, and two per-frame
//! procedures keep the rest in step: one keeps the texture at the window's
//! size, the other hands the character's position to the volume's streaming
//! anchor.

pub mod anchor;
pub mod scene;
pub mod size;
pub mod target;
pub mod texture;

pub use size::PixelSize;
