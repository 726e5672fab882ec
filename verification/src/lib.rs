//! Core of a small 2D side-scrolling platformer: a tile-based level
//! grid with a tile catalog, a coordinate mapper between continuous
//! world space and discrete tile cells, per-side collision probing,
//! and the per-tick physics of the one moving body (friction, input
//! acceleration, gravity, debounced jumping, collision resolution).
//!
//! World space is measured in fixed-point integers (`common::FP_ONE`
//! sub-units per world unit), so every rule of the simulation is
//! stated as an exact contract and proved.  Rendering, asset loading
//! and input polling live outside this crate and only exchange plain
//! values with it.

pub mod common;
pub mod level;
pub mod player;
