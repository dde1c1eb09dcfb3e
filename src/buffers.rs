use vstd::prelude::*;

use crate::dispatch::{tiles_for, workgroup_count, Workgroups};
use crate::grid::{canonical, decode, lemma_encodes_decode, GridSize, Texel};
use crate::life::{next_generation, step_into};
use crate::seed::{dead_texels, seed_texels, seeded_cells};

verus! {

/// One of the two generation buffers.
#[derive(Clone, Copy, Debug, PartialEq, Eq, Structural)]
pub enum BufferId {
    A,
    B,
}

/// The buffer that parity marks current: the one safe to sample for display
/// and to read as the source of the next step.
pub open spec fn current_of(parity: bool) -> BufferId {
    if parity {
        BufferId::B
    } else {
        BufferId::A
    }
}

impl BufferId {
    /// The other buffer of the pair.
    pub fn other(self) -> (r: BufferId)
        ensures
            r != self,
    {
        match self {
            BufferId::A => BufferId::B,
            BufferId::B => BufferId::A,
        }
    }
}

/// The buffer that parity marks current.
pub fn current_buffer(parity: bool) -> (r: BufferId)
    ensures
        r == current_of(parity),
{
    if parity {
        BufferId::B
    } else {
        BufferId::A
    }
}

/// The buffers that one compute step binds: the source texture, read only,
/// and the destination storage texture.
#[derive(Clone, Copy, Debug, PartialEq, Eq, Structural)]
pub struct ComputeBinding {
    pub source: BufferId,
    pub destination: BufferId,
}

pub open spec fn binding_for(parity: bool) -> ComputeBinding {
    ComputeBinding { source: current_of(parity), destination: current_of(!parity) }
}

/// The binding of a step taken at `parity`: it reads the current buffer and
/// writes the other, never the one it reads.
pub fn compute_binding(parity: bool) -> (r: ComputeBinding)
    ensures
        r == binding_for(parity),
        r.source != r.destination,
        r.destination == current_of(!parity),
{
    let source = current_buffer(parity);
    ComputeBinding { source, destination: source.other() }
}

/// What one compute step submits, and the parity after it.
#[derive(Clone, Copy, Debug, PartialEq, Eq)]
pub struct StepPlan {
    pub binding: ComputeBinding,
    pub workgroups: Workgroups,
    pub next_parity: bool,
}

/// The compute stage of a grid of fixed dimensions: which buffers a step
/// binds and how many tiles it dispatches.
#[derive(Clone, Copy, Debug, PartialEq, Eq)]
pub struct ComputeStep {
    pub size: GridSize,
    pub workgroups: Workgroups,
}

impl ComputeStep {
    pub open spec fn wf(self) -> bool {
        &&& self.size.wf()
        &&& self.workgroups.x == tiles_for(self.size.width as int)
        &&& self.workgroups.y == tiles_for(self.size.height as int)
        &&& self.workgroups.z == 1
    }

    pub fn new(size: GridSize) -> (r: ComputeStep)
        requires
            size.wf(),
        ensures
            r.wf(),
            r.size == size,
    {
        ComputeStep { size, workgroups: workgroup_count(&size) }
    }

    /// The step taken at `parity`: it binds the current buffer as source and
    /// the other as destination, covers the grid with tiles, and flips the
    /// parity, which the caller keeps.
    pub fn plan(&self, parity: bool) -> (r: StepPlan)
        ensures
            r.binding == binding_for(parity),
            r.workgroups == self.workgroups,
            r.next_parity == !parity,
    {
        StepPlan { binding: compute_binding(parity), workgroups: self.workgroups, next_parity: !parity }
    }
}

/// A copy of a sequence of texels.
fn copy_texels(src: &Vec<Texel>) -> (r: Vec<Texel>)
    ensures
        r@ == src@,
{
    let mut out: Vec<Texel> = Vec::new();
    let mut i: usize = 0;
    while i < src.len()
        invariant
            i <= src@.len(),
            out@ == src@.subrange(0, i as int),
        decreases src@.len() - i,
    {
        out.push(src[i]);
        i = i + 1;
    }
    assert(out@ =~= src@);
    out
}

/// The two generation buffers of a grid, held in host memory. They are
/// changed only by seeding and by a compute step.
pub struct GridBuffers {
    size: GridSize,
    a: Vec<Texel>,
    b: Vec<Texel>,
}

impl GridBuffers {
    pub closed spec fn grid(self) -> GridSize {
        self.size
    }

    /// The texels of one buffer.
    pub closed spec fn texels(self, id: BufferId) -> Seq<Texel> {
        match id {
            BufferId::A => self.a@,
            BufferId::B => self.b@,
        }
    }

    /// The cells of one buffer.
    pub open spec fn cells(self, id: BufferId) -> Seq<bool> {
        decode(self.texels(id))
    }

    /// Both buffers hold one canonical texel per cell of the grid.
    pub open spec fn wf(self) -> bool {
        &&& self.grid().wf()
        &&& self.texels(BufferId::A).len() == self.grid().cells()
        &&& self.texels(BufferId::B).len() == self.grid().cells()
        &&& canonical(self.texels(BufferId::A))
        &&& canonical(self.texels(BufferId::B))
    }

    /// Two buffers of the given dimensions, every cell dead.
    pub fn new(size: GridSize) -> (r: GridBuffers)
        requires
            size.wf(),
        ensures
            r.wf(),
            r.grid() == size,
            r.cells(BufferId::A) == Seq::new(size.cells(), |i: int| false),
            r.texels(BufferId::A) == r.texels(BufferId::B),
    {
        let a = dead_texels(&size);
        let b = copy_texels(&a);
        proof {
            lemma_encodes_decode(a@, Seq::new(size.cells(), |i: int| false));
        }
        GridBuffers { size, a, b }
    }

    /// The grid dimensions.
    pub fn grid_size(&self) -> (r: GridSize)
        ensures
            r == self.grid(),
    {
        self.size
    }

    /// The texels of one buffer.
    pub fn buffer(&self, id: BufferId) -> (r: &Vec<Texel>)
        ensures
            r@ == self.texels(id),
    {
        match id {
            BufferId::A => &self.a,
            BufferId::B => &self.b,
        }
    }

    /// Writes the generation that `coords` describes into both buffers, bit
    /// for bit the same; whatever they held before is gone.
    pub fn seed(&mut self, coords: &Vec<(u32, u32)>)
        requires
            old(self).wf(),
        ensures
            final(self).wf(),
            final(self).grid() == old(self).grid(),
            final(self).texels(BufferId::A) == final(self).texels(BufferId::B),
            final(self).cells(BufferId::A) == seeded_cells(old(self).grid(), coords@),
    {
        let texels = seed_texels(&self.size, coords);
        let copy = copy_texels(&texels);
        proof {
            lemma_encodes_decode(texels@, seeded_cells(self.size, coords@));
        }
        self.a = texels;
        self.b = copy;
    }

    /// Advances the simulation by one generation at `parity`: the buffer that
    /// parity marks current is read and left as it was, the other receives
    /// the next generation. Returns the flipped parity, which now marks the
    /// new generation current.
    pub fn step(&mut self, parity: bool) -> (next: bool)
        requires
            old(self).wf(),
        ensures
            next == !parity,
            final(self).wf(),
            final(self).grid() == old(self).grid(),
            final(self).texels(current_of(parity)) == old(self).texels(current_of(parity)),
            final(self).cells(current_of(next)) == next_generation(
                old(self).grid(),
                old(self).cells(current_of(parity)),
            ),
    {
        let binding = compute_binding(parity);
        match binding.source {
            BufferId::A => {
                step_into(&self.size, &self.a, &mut self.b);
                proof {
                    lemma_encodes_decode(
                        self.b@,
                        next_generation(self.size, decode(self.a@)),
                    );
                }
            },
            BufferId::B => {
                step_into(&self.size, &self.b, &mut self.a);
                proof {
                    lemma_encodes_decode(
                        self.a@,
                        next_generation(self.size, decode(self.b@)),
                    );
                }
            },
        }
        !parity
    }

    /// The texels that a frame at `parity` presents: those of the buffer
    /// that parity marks current.
    pub fn frame_source(&self, parity: bool) -> (r: &Vec<Texel>)
        ensures
            r@ == self.texels(current_of(parity)),
    {
        self.buffer(current_buffer(parity))
    }
}


/// The parity after `n` steps from `p0`, each step flipping it once.
pub open spec fn parity_after(p0: bool, n: nat) -> bool
    decreases n,
{
    if n == 0 {
        p0
    } else {
        !parity_after(p0, (n - 1) as nat)
    }
}

/// After `n` steps the parity is `p0` flipped when `n` is odd.
pub proof fn lemma_parity_after(p0: bool, n: nat)
    ensures
        parity_after(p0, n) == (p0 != (n % 2 == 1)),
    decreases n,
{
    if n > 0 {
        lemma_parity_after(p0, (n - 1) as nat);
    }
}

} // verus!
