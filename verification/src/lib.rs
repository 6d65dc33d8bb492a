//! Verified core of a small 2D engine: input state, geometry batching,
//! resource registries, render graph bookkeeping, window requests and the
//! decoding of texture and font bytes.

pub mod app;
pub mod batch;
pub mod frame;
pub mod input;
pub mod keyboard;
pub mod primitives;
pub mod render_graph;
pub mod resources;
pub mod runner;
pub mod text;
pub mod texture;
pub mod tilemap;
pub mod time;
