//! Core of an interactive 3D scene viewer.
//!
//! The library holds a small set of rigid meshes, a camera and a lighting
//! configuration, and re-derives per-frame transform matrices in response to
//! timed keyboard input.  All arithmetic is binary fixed point with 32
//! fractional bits (see `fixed`); rendering, windowing and input polling are
//! outside collaborators that consume the matrices this library computes.

pub mod fixed;
pub mod input;
pub mod mesh;
pub mod ops;
pub mod scenes;
pub mod shape_maker;
pub mod transforms;
pub mod trig;
pub mod types;
