//! Simulation core of a real-time 3D game: a generation-checked handle
//! table, a densely packed render-instance batch, a handle-based physics
//! world, and the frame orchestrator that keeps the three in step.
//!
//! All quantities are 16.16 fixed-point integers (see [`fixed`]); the
//! graphics device, the windowing layer and the embedded rigid-body solver
//! live outside this crate and talk to it through plain values.

pub mod entity;
pub mod fixed;
pub mod instance_set;
pub mod handle;
pub mod math;
pub mod module;
pub mod perspective_camera;
pub mod physics;
pub mod player;
pub mod scene;
pub mod space_craft;
pub mod transform;
pub mod world;
