//! Paper-doll sprite composition: animation frame clocks, per-frame
//! equipment anchor tables with left/right mirroring, and ordered layer
//! stacks, each with machine-checked contracts.

pub mod animation;
pub mod anchor;
pub mod layer;
pub mod models;
pub mod search;
pub mod world;
