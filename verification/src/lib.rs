//! Corner-mask tile-atlas conversion and composition.
//!
//! An autotile source image stores a small number of reference cells; this
//! library decodes vendor-specific source layouts into a canonical
//! corner-indexed form and, given a tile's four-neighbor adjacency pattern,
//! synthesizes the matching 2x2-quadrant composite cell by copying fixed
//! sub-regions of the source image. A concurrent named-atlas registry stores
//! the resulting atlases and renders a descriptor document for persistence.

pub mod corner_set;
pub mod errors;
pub mod flat;
pub mod geometry;
pub mod registry;
pub mod rgba;
pub mod rpg_maker;
