//! A software raycasting renderer: the integer side of the pipeline, verified.
//!
//! The floating-point geometry (vectors, the rotating mesh, ray intersection
//! and shading) runs in the host program; this library decides what that
//! geometry cannot: the ground plane's checkerboard cells, which half of the
//! screen a row lies in, the pixel raster the frame is written to, the quit
//! decision over a batch of input events, and the frame loop's state.

pub mod ground;
pub mod raster;
pub mod events;
pub mod frame;
