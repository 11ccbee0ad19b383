//! Decision core of a small windowed viewer: surface configuration, pipeline
//! bookkeeping, the per-frame draw plan and the camera controller's key state.
//! The GPU and window objects themselves are driven by the embedding program.

pub mod build_support;
pub mod camera;
pub mod guarantees;
pub mod input;
pub mod mesh;
pub mod pipeline;
pub mod state;
pub mod surface;
