use vstd::prelude::*;

use crate::grid::{encodes, texel_for, texel_view, GridSize, Texel};

verus! {

/// Whether one of the first `n` coordinates names the cell at index `i`.
/// Coordinates outside the grid name no cell.
pub open spec fn listed_before(g: GridSize, coords: Seq<(u32, u32)>, n: int, i: int) -> bool {
    exists|k: int|
        0 <= k < n && g.in_grid(#[trigger] coords[k].0 as int, coords[k].1 as int) && g.index_of(
            coords[k].0 as int,
            coords[k].1 as int,
        ) == i
}

/// The initial generation: a cell is alive exactly where a coordinate names it.
pub open spec fn seeded_cells(g: GridSize, coords: Seq<(u32, u32)>) -> Seq<bool> {
    Seq::new(g.cells(), |i: int| listed_before(g, coords, coords.len() as int, i))
}

/// A generation buffer in which every cell is dead.
pub fn dead_texels(size: &GridSize) -> (r: Vec<Texel>)
    requires
        size.wf(),
    ensures
        encodes(r@, Seq::new(size.cells(), |i: int| false)),
{
    let n = size.cell_count();
    let mut texels: Vec<Texel> = Vec::new();
    let mut i: usize = 0;
    while i < n
        invariant
            i <= n,
            n == size.cells(),
            texels@.len() == i,
            forall|j: int| 0 <= j < i ==> #[trigger] texels@[j]@ == texel_view(false),
        decreases n - i,
    {
        texels.push(texel_for(false));
        i = i + 1;
    }
    texels
}

/// The texels of the initial generation that `coords` describes.
pub fn seed_texels(size: &GridSize, coords: &Vec<(u32, u32)>) -> (r: Vec<Texel>)
    requires
        size.wf(),
    ensures
        encodes(r@, seeded_cells(*size, coords@)),
{
    let g = *size;
    let n = size.cell_count();
    let mut texels = dead_texels(size);
    let mut k: usize = 0;
    while k < coords.len()
        invariant
            g == *size,
            g.wf(),
            n == g.cells(),
            k <= coords@.len(),
            texels@.len() == n,
            forall|i: int|
                0 <= i < n ==> #[trigger] texels@[i]@ == texel_view(
                    listed_before(g, coords@, k as int, i),
                ),
        decreases coords@.len() - k,
    {
        let (x, y) = coords[k];
        let ghost before = texels@;
        if x < size.width && y < size.height {
            let idx = size.cell_index(x, y);
            texels.set(idx, texel_for(true));
        }
        assert forall|i: int| 0 <= i < n implies #[trigger] texels@[i]@ == texel_view(
            listed_before(g, coords@, k + 1, i),
        ) by {
            if g.in_grid(x as int, y as int) && g.index_of(x as int, y as int) == i {
                assert(coords@[k as int].0 == x);
                assert(listed_before(g, coords@, k + 1, i));
            } else {
                assert(texels@[i] == before[i]);
                if listed_before(g, coords@, k + 1, i) {
                    let kk = choose|kk: int|
                        0 <= kk < k + 1 && g.in_grid(
                            #[trigger] coords@[kk].0 as int,
                            coords@[kk].1 as int,
                        ) && g.index_of(coords@[kk].0 as int, coords@[kk].1 as int) == i;
                    assert(kk != k);
                    assert(listed_before(g, coords@, k as int, i));
                }
                if listed_before(g, coords@, k as int, i) {
                    let kk = choose|kk: int|
                        0 <= kk < k && g.in_grid(
                            #[trigger] coords@[kk].0 as int,
                            coords@[kk].1 as int,
                        ) && g.index_of(coords@[kk].0 as int, coords@[kk].1 as int) == i;
                    assert(listed_before(g, coords@, k + 1, i));
                }
            }
        }
        k = k + 1;
    }
    texels
}


/// How a motif is repeated over the grid: `columns` by `rows` copies, the
/// copy in column `c` and row `r` shifted by `c * spacing` and `r * spacing`.
#[derive(Clone, Copy, Debug, PartialEq, Eq)]
pub struct Tiling {
    pub columns: u32,
    pub rows: u32,
    pub spacing: u32,
}

/// Where point `j` of the motif lands in the copy at column `c`, row `r`.
pub open spec fn placed(motif: Seq<(u32, u32)>, t: Tiling, c: int, r: int, j: int) -> (int, int) {
    (c * t.spacing + motif[j].0, r * t.spacing + motif[j].1)
}

/// `(x, y)` is a cell of the grid that some copy of the motif covers.
pub open spec fn in_pattern(g: GridSize, motif: Seq<(u32, u32)>, t: Tiling, x: int, y: int) -> bool {
    &&& g.in_grid(x, y)
    &&& exists|c: int, r: int, j: int|
        0 <= c < t.columns && 0 <= r < t.rows && 0 <= j < motif.len() && #[trigger] placed(
            motif,
            t,
            c,
            r,
            j,
        ) == (x, y)
}

/// `(c, r, j)` comes before `(c2, r2, j2)`: copies column by column, then row
/// by row, then the points of the motif in their order.
pub open spec fn comes_before(c: int, r: int, j: int, c2: int, r2: int, j2: int) -> bool {
    c < c2 || (c == c2 && (r < r2 || (r == r2 && j < j2)))
}

/// `(x, y)` is a cell of the grid that a point placed before `(c2, r2, j2)`
/// covers.
pub open spec fn placed_before(
    g: GridSize,
    motif: Seq<(u32, u32)>,
    t: Tiling,
    c2: int,
    r2: int,
    j2: int,
    x: int,
    y: int,
) -> bool {
    &&& g.in_grid(x, y)
    &&& exists|c: int, r: int, j: int|
        0 <= c < t.columns && 0 <= r < t.rows && 0 <= j < motif.len() && comes_before(
            c,
            r,
            j,
            c2,
            r2,
            j2,
        ) && #[trigger] placed(motif, t, c, r, j) == (x, y)
}

proof fn lemma_placed_before_same(
    g: GridSize,
    motif: Seq<(u32, u32)>,
    t: Tiling,
    a: (int, int, int),
    b: (int, int, int),
)
    requires
        forall|c: int, r: int, j: int|
            0 <= c < t.columns && 0 <= r < t.rows && 0 <= j < motif.len() ==> (comes_before(
                c,
                r,
                j,
                a.0,
                a.1,
                a.2,
            ) <==> comes_before(c, r, j, b.0, b.1, b.2)),
    ensures
        forall|x: int, y: int|
            placed_before(g, motif, t, a.0, a.1, a.2, x, y) <==> placed_before(
                g,
                motif,
                t,
                b.0,
                b.1,
                b.2,
                x,
                y,
            ),
{
    assert forall|x: int, y: int|
        placed_before(g, motif, t, a.0, a.1, a.2, x, y) implies placed_before(
            g,
            motif,
            t,
            b.0,
            b.1,
            b.2,
            x,
            y,
        ) by {
        let (c, r, j) = choose|c: int, r: int, j: int|
            0 <= c < t.columns && 0 <= r < t.rows && 0 <= j < motif.len() && comes_before(
                c,
                r,
                j,
                a.0,
                a.1,
                a.2,
            ) && #[trigger] placed(motif, t, c, r, j) == (x, y);
        assert(comes_before(c, r, j, b.0, b.1, b.2));
    }
    assert forall|x: int, y: int|
        placed_before(g, motif, t, b.0, b.1, b.2, x, y) implies placed_before(
            g,
            motif,
            t,
            a.0,
            a.1,
            a.2,
            x,
            y,
        ) by {
        let (c, r, j) = choose|c: int, r: int, j: int|
            0 <= c < t.columns && 0 <= r < t.rows && 0 <= j < motif.len() && comes_before(
                c,
                r,
                j,
                b.0,
                b.1,
                b.2,
            ) && #[trigger] placed(motif, t, c, r, j) == (x, y);
        assert(comes_before(c, r, j, a.0, a.1, a.2));
    }
}

/// The coordinates that `columns` by `rows` copies of `motif` cover in the
/// grid, copy after copy. Points that fall outside the grid are left out.
pub fn seed_pattern(size: &GridSize, motif: &Vec<(u32, u32)>, tiling: Tiling) -> (r: Vec<
    (u32, u32),
>)
    ensures
        forall|x: u32, y: u32|
            r@.contains((x, y)) <==> in_pattern(*size, motif@, tiling, x as int, y as int),
{
    let g = *size;
    let t = tiling;
    let m = motif.len();
    let mut out: Vec<(u32, u32)> = Vec::new();
    let mut c: u32 = 0;
    while c < t.columns
        invariant
            g == *size,
            t == tiling,
            m == motif@.len(),
            c <= t.columns,
            forall|x: u32, y: u32|
                out@.contains((x, y)) <==> placed_before(
                    g,
                    motif@,
                    t,
                    c as int,
                    0,
                    0,
                    x as int,
                    y as int,
                ),
        decreases t.columns - c,
    {
        let mut r: u32 = 0;
        while r < t.rows
            invariant
                g == *size,
                t == tiling,
                m == motif@.len(),
                c < t.columns,
                r <= t.rows,
                forall|x: u32, y: u32|
                    out@.contains((x, y)) <==> placed_before(
                        g,
                        motif@,
                        t,
                        c as int,
                        r as int,
                        0,
                        x as int,
                        y as int,
                    ),
            decreases t.rows - r,
        {
            let mut j: usize = 0;
            while j < m
                invariant
                    g == *size,
                    t == tiling,
                    m == motif@.len(),
                    c < t.columns,
                    r < t.rows,
                    j <= m,
                    forall|x: u32, y: u32|
                        out@.contains((x, y)) <==> placed_before(
                            g,
                            motif@,
                            t,
                            c as int,
                            r as int,
                            j as int,
                            x as int,
                            y as int,
                        ),
                decreases m - j,
            {
                let (mx, my) = motif[j];
                assert(c as int * t.spacing as int <= 0xffff_ffff * 0xffff_ffff) by (nonlinear_arith)
                    requires
                        c <= 0xffff_ffffu32,
                        t.spacing <= 0xffff_ffffu32,
                ;
                assert(r as int * t.spacing as int <= 0xffff_ffff * 0xffff_ffff) by (nonlinear_arith)
                    requires
                        r <= 0xffff_ffffu32,
                        t.spacing <= 0xffff_ffffu32,
                ;
                let px: u64 = c as u64 * t.spacing as u64 + mx as u64;
                let py: u64 = r as u64 * t.spacing as u64 + my as u64;
                let ghost old_out = out@;
                let ghost p = placed(motif@, t, c as int, r as int, j as int);
                assert(p == (px as int, py as int));
                if px < g.width as u64 && py < g.height as u64 {
                    out.push((px as u32, py as u32));
                }
                assert forall|x: u32, y: u32|
                    out@.contains((x, y)) <==> placed_before(
                        g,
                        motif@,
                        t,
                        c as int,
                        r as int,
                        j + 1,
                        x as int,
                        y as int,
                    ) by {
                    let q = (x as int, y as int);
                    assert(old_out.contains((x, y)) <==> placed_before(
                        g,
                        motif@,
                        t,
                        c as int,
                        r as int,
                        j as int,
                        x as int,
                        y as int,
                    ));
                    let added = q == p && g.in_grid(x as int, y as int);
                    if out@.contains((x, y)) {
                        let k = choose|k: int| 0 <= k < out@.len() && out@[k] == (x, y);
                        if k < old_out.len() {
                            assert(old_out[k] == (x, y));
                        }
                    }
                    if old_out.contains((x, y)) {
                        let k = choose|k: int| 0 <= k < old_out.len() && old_out[k] == (x, y);
                        assert(out@[k] == (x, y));
                    }
                    if added {
                        assert(out@[out@.len() - 1] == (x, y));
                    }
                    assert(out@.contains((x, y)) <==> old_out.contains((x, y)) || added);
                    if placed_before(
                        g,
                        motif@,
                        t,
                        c as int,
                        r as int,
                        j + 1,
                        x as int,
                        y as int,
                    ) {
                        let (c1, r1, j1) = choose|c1: int, r1: int, j1: int|
                            0 <= c1 < t.columns && 0 <= r1 < t.rows && 0 <= j1 < motif@.len()
                                && comes_before(c1, r1, j1, c as int, r as int, j + 1)
                                && #[trigger] placed(motif@, t, c1, r1, j1) == q;
                        if !comes_before(c1, r1, j1, c as int, r as int, j as int) {
                            assert(c1 == c && r1 == r && j1 == j);
                        }
                    }
                    if placed_before(
                        g,
                        motif@,
                        t,
                        c as int,
                        r as int,
                        j as int,
                        x as int,
                        y as int,
                    ) {
                        let (c1, r1, j1) = choose|c1: int, r1: int, j1: int|
                            0 <= c1 < t.columns && 0 <= r1 < t.rows && 0 <= j1 < motif@.len()
                                && comes_before(c1, r1, j1, c as int, r as int, j as int)
                                && #[trigger] placed(motif@, t, c1, r1, j1) == q;
                        assert(comes_before(c1, r1, j1, c as int, r as int, j + 1));
                    }
                    if added {
                        assert(placed(motif@, t, c as int, r as int, j as int) == q);
                        assert(comes_before(c as int, r as int, j as int, c as int, r as int, j + 1));
                    }
                }
                j = j + 1;
            }
            proof {
                lemma_placed_before_same(
                    g,
                    motif@,
                    t,
                    (c as int, r as int, m as int),
                    (c as int, r + 1, 0),
                );
                assert forall|x: u32, y: u32|
                    out@.contains((x, y)) <==> placed_before(
                        g,
                        motif@,
                        t,
                        c as int,
                        r + 1,
                        0,
                        x as int,
                        y as int,
                    ) by {
                    let (xi, yi) = (x as int, y as int);
                    assert(out@.contains((x, y)) <==> placed_before(
                        g,
                        motif@,
                        t,
                        c as int,
                        r as int,
                        m as int,
                        xi,
                        yi,
                    ));
                    assert(placed_before(g, motif@, t, c as int, r as int, m as int, xi, yi)
                        <==> placed_before(g, motif@, t, c as int, r + 1, 0, xi, yi));
                }
            }
            r = r + 1;
        }
        proof {
            lemma_placed_before_same(
                g,
                motif@,
                t,
                (c as int, t.rows as int, 0),
                (c + 1, 0, 0),
            );
            assert forall|x: u32, y: u32|
                out@.contains((x, y)) <==> placed_before(
                    g,
                    motif@,
                    t,
                    c + 1,
                    0,
                    0,
                    x as int,
                    y as int,
                ) by {
                let (xi, yi) = (x as int, y as int);
                assert(out@.contains((x, y)) <==> placed_before(
                    g,
                    motif@,
                    t,
                    c as int,
                    t.rows as int,
                    0,
                    xi,
                    yi,
                ));
                assert(placed_before(g, motif@, t, c as int, t.rows as int, 0, xi, yi)
                    <==> placed_before(g, motif@, t, c + 1, 0, 0, xi, yi));
            }
        }
        c = c + 1;
    }
    proof {
        assert forall|x: u32, y: u32|
            placed_before(
                g,
                motif@,
                t,
                t.columns as int,
                0,
                0,
                x as int,
                y as int,
            ) <==> in_pattern(g, motif@, t, x as int, y as int) by {
            if in_pattern(g, motif@, t, x as int, y as int) {
                let (c1, r1, j1) = choose|c1: int, r1: int, j1: int|
                    0 <= c1 < t.columns && 0 <= r1 < t.rows && 0 <= j1 < motif@.len()
                        && #[trigger] placed(motif@, t, c1, r1, j1) == (x as int, y as int);
                assert(comes_before(c1, r1, j1, t.columns as int, 0, 0));
            }
        }
    }
    out
}


/// After seeding, a cell of the grid is alive exactly when the seed lists
/// its coordinates.
pub proof fn lemma_seeded_cell(g: GridSize, coords: Seq<(u32, u32)>, x: u32, y: u32)
    requires
        g.wf(),
        g.in_grid(x as int, y as int),
    ensures
        0 <= g.index_of(x as int, y as int) < seeded_cells(g, coords).len(),
        seeded_cells(g, coords)[g.index_of(x as int, y as int)] <==> coords.contains((x, y)),
{
    let i = g.index_of(x as int, y as int);
    crate::grid::lemma_index_in_range(g, x as int, y as int);
    crate::grid::lemma_index_coords(g, x as int, y as int);
    if listed_before(g, coords, coords.len() as int, i) {
        let k = choose|k: int|
            0 <= k < coords.len() && g.in_grid(#[trigger] coords[k].0 as int, coords[k].1 as int)
                && g.index_of(coords[k].0 as int, coords[k].1 as int) == i;
        crate::grid::lemma_index_coords(g, coords[k].0 as int, coords[k].1 as int);
        assert(coords[k] == (x, y));
    }
    if coords.contains((x, y)) {
        let k = choose|k: int| 0 <= k < coords.len() && coords[k] == (x, y);
        assert(g.in_grid(coords[k].0 as int, coords[k].1 as int));
    }
}

} // verus!
