use vstd::prelude::*;

verus! {

/// One texel of a generation buffer: red, green, blue, alpha.
pub type Texel = [u8; 4];

/// The bytes of a texel: fully opaque white for a live cell, fully
/// transparent black for a dead one.
pub open spec fn texel_view(alive: bool) -> Seq<u8> {
    if alive {
        seq![255u8, 255u8, 255u8, 255u8]
    } else {
        seq![0u8, 0u8, 0u8, 0u8]
    }
}

/// The cells that a sequence of texels holds.
pub open spec fn decode(texels: Seq<Texel>) -> Seq<bool> {
    Seq::new(texels.len(), |i: int| texels[i]@ == texel_view(true))
}

/// Every texel is exactly the texel of a live or of a dead cell.
pub open spec fn canonical(texels: Seq<Texel>) -> bool {
    forall|i: int| 0 <= i < texels.len() ==> #[trigger] texels[i]@ == texel_view(decode(texels)[i])
}

/// `texels` is the canonical encoding of `cells`.
pub open spec fn encodes(texels: Seq<Texel>, cells: Seq<bool>) -> bool {
    &&& texels.len() == cells.len()
    &&& forall|i: int| 0 <= i < texels.len() ==> #[trigger] texels[i]@ == texel_view(cells[i])
}

pub proof fn lemma_encodes_decode(texels: Seq<Texel>, cells: Seq<bool>)
    requires
        encodes(texels, cells),
    ensures
        decode(texels) == cells,
        canonical(texels),
{
    assert forall|i: int| 0 <= i < texels.len() implies decode(texels)[i] == cells[i] by {
        if !cells[i] {
            assert(texels[i]@[0] == 0u8);
        }
    }
    assert(decode(texels) =~= cells);
}

/// The texel of a live or of a dead cell.
pub fn texel_for(alive: bool) -> (t: Texel)
    ensures
        t@ == texel_view(alive),
{
    let t: Texel = if alive {
        [255u8, 255u8, 255u8, 255u8]
    } else {
        [0u8, 0u8, 0u8, 0u8]
    };
    assert(t@ =~= texel_view(alive));
    t
}

/// Whether a texel is the texel of a live cell.
pub fn texel_is_alive(t: &Texel) -> (r: bool)
    ensures
        r == (t@ == texel_view(true)),
{
    let r = t[0] == 255 && t[1] == 255 && t[2] == 255 && t[3] == 255;
    proof {
        if r {
            assert(t@ =~= texel_view(true));
        }
        if t@ == texel_view(true) {
            assert(t@[0] == 255u8 && t@[3] == 255u8);
        }
    }
    r
}

/// The dimensions of the simulated grid, in cells. They are fixed for a run
/// and shared by both generation buffers.
#[derive(Clone, Copy, Debug, PartialEq, Eq)]
pub struct GridSize {
    pub width: u32,
    pub height: u32,
}

impl GridSize {
    /// Both dimensions are positive, the texels of a generation fit in
    /// memory and one row of texel bytes can be described to the device.
    pub open spec fn wf(self) -> bool {
        &&& 0 < self.width
        &&& 0 < self.height
        &&& self.width * self.height * 4 <= usize::MAX
        &&& self.width * 4 <= u32::MAX
    }

    pub open spec fn cells(self) -> nat {
        (self.width * self.height) as nat
    }

    pub open spec fn in_grid(self, x: int, y: int) -> bool {
        0 <= x < self.width && 0 <= y < self.height
    }

    /// Cells are stored row after row.
    pub open spec fn index_of(self, x: int, y: int) -> int {
        y * self.width + x
    }

    /// A grid of the given dimensions, or `None` where they are zero or too
    /// large to hold.
    pub fn new(width: u32, height: u32) -> (r: Option<GridSize>)
        ensures
            r is Some <==> (GridSize { width, height }).wf(),
            r matches Some(g) ==> g.width == width && g.height == height,
    {
        if width == 0 || height == 0 {
            return None;
        }
        let row_bytes = width as u64 * 4;
        if row_bytes > u32::MAX as u64 {
            return None;
        }
        assert(width as u128 * height as u128 * 4 <= 0xffff_ffff_u128 * 0xffff_ffff_u128 * 4)
            by (nonlinear_arith)
            requires
                width <= 0xffff_ffff_u32,
                height <= 0xffff_ffff_u32,
        ;
        let total = width as u128 * height as u128 * 4;
        if total > usize::MAX as u128 {
            return None;
        }
        Some(GridSize { width, height })
    }

    /// The number of cells.
    pub fn cell_count(&self) -> (r: usize)
        requires
            self.wf(),
        ensures
            r == self.cells(),
    {
        proof {
            lemma_cells_fit(*self);
        }
        self.width as usize * self.height as usize
    }

    /// The position in a generation buffer of the cell at `(x, y)`.
    pub fn cell_index(&self, x: u32, y: u32) -> (r: usize)
        requires
            self.wf(),
            self.in_grid(x as int, y as int),
        ensures
            r == self.index_of(x as int, y as int),
            r < self.cells(),
    {
        proof {
            lemma_cells_fit(*self);
            lemma_index_in_range(*self, x as int, y as int);
        }
        y as usize * self.width as usize + x as usize
    }
}

pub proof fn lemma_cells_fit(g: GridSize)
    requires
        g.wf(),
    ensures
        g.width * g.height <= usize::MAX,
        g.cells() * 4 <= usize::MAX,
        g.width <= g.cells(),
        g.height <= g.cells(),
{
    assert(g.width * g.height <= g.width * g.height * 4) by (nonlinear_arith)
        requires
            g.width >= 1,
            g.height >= 1,
    ;
    assert(g.width <= g.width * g.height) by (nonlinear_arith)
        requires
            g.height >= 1,
    ;
    assert(g.height <= g.width * g.height) by (nonlinear_arith)
        requires
            g.width >= 1,
    ;
}

pub proof fn lemma_index_in_range(g: GridSize, x: int, y: int)
    requires
        g.in_grid(x, y),
    ensures
        0 <= g.index_of(x, y) < g.cells(),
{
    let w = g.width as int;
    let h = g.height as int;
    assert(0 <= y * w + x < w * h) by (nonlinear_arith)
        requires
            0 <= x < w,
            0 <= y < h,
    ;
}

/// The column and the row of a cell can be read back from its index.
pub proof fn lemma_index_coords(g: GridSize, x: int, y: int)
    requires
        g.in_grid(x, y),
    ensures
        g.index_of(x, y) % (g.width as int) == x,
        g.index_of(x, y) / (g.width as int) == y,
{
    vstd::arithmetic::div_mod::lemma_fundamental_div_mod_converse(
        g.index_of(x, y),
        g.width as int,
        y,
        x,
    );
}

} // verus!
