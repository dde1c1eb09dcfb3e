use vstd::prelude::*;

use crate::dispatch::{workgroup_count, TILE_SIZE};
use crate::grid::{
    decode, encodes, lemma_cells_fit, lemma_encodes_decode, lemma_index_coords, texel_for,
    texel_is_alive, texel_view, GridSize, Texel,
};

verus! {

/// The cell at `(x, y)` is inside the grid and alive. Cells beyond the edge
/// count as dead.
pub open spec fn alive_at(g: GridSize, cells: Seq<bool>, x: int, y: int) -> bool {
    g.in_grid(x, y) && cells[g.index_of(x, y)]
}

pub open spec fn count(b: bool) -> int {
    if b {
        1
    } else {
        0
    }
}

/// The live cells among the eight around `(x, y)`.
pub open spec fn live_neighbours(g: GridSize, cells: Seq<bool>, x: int, y: int) -> int {
    count(alive_at(g, cells, x - 1, y - 1)) + count(alive_at(g, cells, x, y - 1)) + count(
        alive_at(g, cells, x + 1, y - 1),
    ) + count(alive_at(g, cells, x - 1, y)) + count(alive_at(g, cells, x + 1, y)) + count(
        alive_at(g, cells, x - 1, y + 1),
    ) + count(alive_at(g, cells, x, y + 1)) + count(alive_at(g, cells, x + 1, y + 1))
}

/// A cell with three live neighbours is alive in the next generation, a live
/// cell with two stays alive, and every other cell is dead.
pub open spec fn next_cell(alive: bool, neighbours: int) -> bool {
    neighbours == 3 || (alive && neighbours == 2)
}

/// The generation that follows `cells` on grid `g`.
pub open spec fn next_generation(g: GridSize, cells: Seq<bool>) -> Seq<bool> {
    Seq::new(
        cells.len(),
        |i: int|
            next_cell(
                cells[i],
                live_neighbours(g, cells, i % (g.width as int), i / (g.width as int)),
            ),
    )
}

/// Whether the cell at `(x, y)` of `src` is alive; positions beyond the edge
/// read as dead.
fn alive_in(size: &GridSize, src: &Vec<Texel>, x: i64, y: i64) -> (r: bool)
    requires
        size.wf(),
        src@.len() == size.cells(),
    ensures
        r == alive_at(*size, decode(src@), x as int, y as int),
{
    if x < 0 || y < 0 || x >= size.width as i64 || y >= size.height as i64 {
        false
    } else {
        let i = size.cell_index(x as u32, y as u32);
        texel_is_alive(&src[i])
    }
}

/// The texel that the cell at `(x, y)` holds in the next generation.
pub fn next_texel(size: &GridSize, src: &Vec<Texel>, x: u32, y: u32) -> (t: Texel)
    requires
        size.wf(),
        src@.len() == size.cells(),
        size.in_grid(x as int, y as int),
    ensures
        t@ == texel_view(
            next_cell(
                alive_at(*size, decode(src@), x as int, y as int),
                live_neighbours(*size, decode(src@), x as int, y as int),
            ),
        ),
{
    let xi = x as i64;
    let yi = y as i64;
    let mut n: u8 = 0;
    if alive_in(size, src, xi - 1, yi - 1) {
        n = n + 1;
    }
    if alive_in(size, src, xi, yi - 1) {
        n = n + 1;
    }
    if alive_in(size, src, xi + 1, yi - 1) {
        n = n + 1;
    }
    if alive_in(size, src, xi - 1, yi) {
        n = n + 1;
    }
    if alive_in(size, src, xi + 1, yi) {
        n = n + 1;
    }
    if alive_in(size, src, xi - 1, yi + 1) {
        n = n + 1;
    }
    if alive_in(size, src, xi, yi + 1) {
        n = n + 1;
    }
    if alive_in(size, src, xi + 1, yi + 1) {
        n = n + 1;
    }
    let alive = alive_in(size, src, xi, yi);
    texel_for(n == 3 || (alive && n == 2))
}

/// The cells that the dispatch has written once the invocation at
/// `(gx, gy)` is next: all rows above `gy`, and the cells left of `gx` in row
/// `gy`.
pub open spec fn written(g: GridSize, gx: int, gy: int) -> int {
    if gy < g.height {
        gy * g.width + if gx < g.width {
            gx
        } else {
            g.width as int
        }
    } else {
        g.cells() as int
    }
}

/// Computes the generation after `src` into `dst`, as one compute dispatch
/// does: every invocation of `workgroup_count` tiles of 16 by 16 computes its
/// own cell, and an invocation beyond the grid's edge writes nothing. `src`
/// is only read.
pub fn step_into(size: &GridSize, src: &Vec<Texel>, dst: &mut Vec<Texel>)
    requires
        size.wf(),
        src@.len() == size.cells(),
        old(dst)@.len() == size.cells(),
    ensures
        encodes(final(dst)@, next_generation(*size, decode(src@))),
{
    let g = *size;
    let ghost cells = decode(src@);
    let ghost next = next_generation(g, cells);
    proof {
        lemma_cells_fit(g);
    }
    let groups = workgroup_count(size);
    let extent_x: u64 = groups.x as u64 * TILE_SIZE as u64;
    let extent_y: u64 = groups.y as u64 * TILE_SIZE as u64;
    let mut gy: u64 = 0;
    while gy < extent_y
        invariant
            g == *size,
            g.wf(),
            cells == decode(src@),
            next == next_generation(g, cells),
            src@.len() == g.cells(),
            dst@.len() == g.cells(),
            g.height <= extent_y,
            g.width <= extent_x,
            gy <= extent_y,
            forall|i: int|
                0 <= i < written(g, 0, gy as int) && i < dst@.len() ==> #[trigger] dst@[i]@
                    == texel_view(next[i]),
        decreases extent_y - gy,
    {
        let mut gx: u64 = 0;
        while gx < extent_x
            invariant
                g == *size,
                g.wf(),
                cells == decode(src@),
                next == next_generation(g, cells),
                src@.len() == g.cells(),
                dst@.len() == g.cells(),
                g.width <= extent_x,
                gy < extent_y,
                gx <= extent_x,
                forall|i: int|
                    0 <= i < written(g, gx as int, gy as int) && i < dst@.len() ==> #[trigger] dst@[i]@
                        == texel_view(next[i]),
            decreases extent_x - gx,
        {
            if gx < g.width as u64 && gy < g.height as u64 {
                let x = gx as u32;
                let y = gy as u32;
                let idx = size.cell_index(x, y);
                let t = next_texel(size, src, x, y);
                proof {
                    lemma_index_coords(g, x as int, y as int);
                    assert(idx == written(g, gx as int, gy as int));
                }
                dst.set(idx, t);
            }
            gx = gx + 1;
        }
        proof {
            if gy < g.height {
                assert(gy * g.width + g.width == (gy + 1) * g.width) by (nonlinear_arith);
                if gy + 1 == g.height {
                    assert((gy + 1) * g.width == g.width * g.height) by (nonlinear_arith)
                        requires
                            gy + 1 == g.height,
                    ;
                }
            }
        }
        gy = gy + 1;
    }
    proof {
        assert forall|i: int| 0 <= i < dst@.len() implies #[trigger] dst@[i]@ == texel_view(
            next[i],
        ) by {
            assert(i < written(g, 0, gy as int));
        }
        lemma_encodes_decode(dst@, next);
    }
}


/// A grid with no live cell stays without one: in particular no invocation
/// beyond the grid's edge brings a cell to life.
pub proof fn lemma_dead_grid_stays_dead(g: GridSize)
    ensures
        next_generation(g, Seq::new(g.cells(), |i: int| false)) == Seq::new(
            g.cells(),
            |i: int| false,
        ),
{
    let dead = Seq::new(g.cells(), |i: int| false);
    assert forall|x: int, y: int| !alive_at(g, dead, x, y) by {
        if g.in_grid(x, y) {
            crate::grid::lemma_index_in_range(g, x, y);
        }
    }
    assert(next_generation(g, dead) =~= dead);
}

} // verus!
