use vstd::prelude::*;

/// Grid dimensions, texels and the cell layout of a generation buffer.
pub mod grid;
/// The initial generation: seed coordinates and tiled motifs.
pub mod seed;
/// The tiling of a compute dispatch over the grid.
pub mod dispatch;
/// The transition rule and the step of one generation.
pub mod life;
/// The pair of generation buffers and the roles that parity gives them.
pub mod buffers;
/// The frame loop: run mode, single steps, resizes and frame plans.
pub mod frame;
/// Texel bytes and their layout for a device upload.
pub mod upload;
/// The keys that the program reacts to.
pub mod keys;

verus! {

} // verus!
