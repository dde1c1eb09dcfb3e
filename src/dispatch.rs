use vstd::prelude::*;

use crate::grid::GridSize;

verus! {

/// The side of one workgroup tile, in cells.
pub const TILE_SIZE: u32 = 16;

/// How many tiles of `TILE_SIZE` cells cover `n` cells.
pub open spec fn tiles_for(n: int) -> int {
    (n + TILE_SIZE - 1) / (TILE_SIZE as int)
}

/// The workgroup counts of one compute dispatch.
#[derive(Clone, Copy, Debug, PartialEq, Eq)]
pub struct Workgroups {
    pub x: u32,
    pub y: u32,
    pub z: u32,
}

/// The tiles of one compute step: `ceil(width / 16)` by `ceil(height / 16)`
/// by one. They cover the grid, and a row or column fewer would not.
pub fn workgroup_count(size: &GridSize) -> (r: Workgroups)
    requires
        size.wf(),
    ensures
        r.x == tiles_for(size.width as int),
        r.y == tiles_for(size.height as int),
        r.z == 1,
        size.width <= r.x * TILE_SIZE < size.width + TILE_SIZE,
        size.height <= r.y * TILE_SIZE < size.height + TILE_SIZE,
{
    proof {
        crate::grid::lemma_cells_fit(*size);
    }
    let x = size.width / TILE_SIZE + if size.width % TILE_SIZE == 0 {
        0
    } else {
        1
    };
    let y = size.height / TILE_SIZE + if size.height % TILE_SIZE == 0 {
        0
    } else {
        1
    };
    Workgroups { x, y, z: 1 }
}

} // verus!
