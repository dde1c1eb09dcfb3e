use vstd::prelude::*;

use crate::buffers::{
    binding_for, compute_binding, current_buffer, current_of, BufferId, ComputeBinding,
    GridBuffers,
};
use crate::grid::{GridSize, Texel};
use crate::life::next_generation;
use crate::seed::seeded_cells;

verus! {

/// Whether the simulation advances on every frame.
#[derive(Clone, Copy, Debug, PartialEq, Eq, Structural)]
pub enum RunMode {
    Paused,
    Running,
}

/// The input events that the frame loop acts on; every other input is
/// ignored before it gets here.
#[derive(Clone, Copy, Debug, PartialEq, Eq, Structural)]
pub enum InputEvent {
    /// Take exactly one step on the next frame, whatever the mode.
    SingleStep,
    /// Switch between paused and running.
    ToggleRun,
    /// Leave the frame loop.
    Exit,
    /// The window's drawable area changed.
    Resize { width: u32, height: u32 },
}

/// What the caller does after an event.
#[derive(Clone, Copy, Debug, PartialEq, Eq, Structural)]
pub enum EventOutcome {
    Continue,
    Exit,
    /// Reconfigure the swap surface and the projection's aspect ratio to the
    /// new size; the grid is not touched.
    ReconfigureSurface { width: u32, height: u32 },
}

/// The state of the frame loop.
#[derive(Clone, Copy, Debug, PartialEq, Eq, Structural)]
pub struct FrameState {
    pub mode: RunMode,
    /// A single step was asked for since the last frame.
    pub step_requested: bool,
    /// Which generation buffer is current.
    pub parity: bool,
    pub surface_width: u32,
    pub surface_height: u32,
    pub exit_requested: bool,
}

/// What one frame does, in order: at most one compute step, then one render
/// of `render_source`.
#[derive(Clone, Copy, Debug, PartialEq, Eq, Structural)]
pub struct FramePlan {
    pub step: Option<ComputeBinding>,
    pub render_source: BufferId,
}

/// The state after an event.
pub open spec fn on_event(s: FrameState, e: InputEvent) -> FrameState {
    match e {
        InputEvent::SingleStep => FrameState { step_requested: true, ..s },
        InputEvent::ToggleRun => FrameState {
            mode: if s.mode == RunMode::Running {
                RunMode::Paused
            } else {
                RunMode::Running
            },
            ..s
        },
        InputEvent::Exit => FrameState { exit_requested: true, ..s },
        InputEvent::Resize { width, height } => if width > 0 && height > 0 {
            FrameState { surface_width: width, surface_height: height, ..s }
        } else {
            s
        },
    }
}

/// What the caller does after an event. A resize to an empty area is
/// ignored.
pub open spec fn outcome_of(s: FrameState, e: InputEvent) -> EventOutcome {
    match e {
        InputEvent::Exit => EventOutcome::Exit,
        InputEvent::Resize { width, height } => if width > 0 && height > 0 {
            EventOutcome::ReconfigureSurface { width, height }
        } else {
            EventOutcome::Continue
        },
        _ => EventOutcome::Continue,
    }
}

/// A frame steps when the loop runs or a single step was asked for.
pub open spec fn frame_steps(s: FrameState) -> bool {
    s.mode == RunMode::Running || s.step_requested
}

/// The state after a frame: a step flips the parity once, and the request
/// for a single step is used up.
pub open spec fn after_frame(s: FrameState) -> FrameState {
    FrameState {
        parity: if frame_steps(s) {
            !s.parity
        } else {
            s.parity
        },
        step_requested: false,
        ..s
    }
}

/// The plan of a frame: the step reads the buffer current before it, and
/// the render samples the buffer current after it, the one just written.
pub open spec fn plan_of(s: FrameState) -> FramePlan {
    FramePlan {
        step: if frame_steps(s) {
            Some(binding_for(s.parity))
        } else {
            None
        },
        render_source: current_of(after_frame(s).parity),
    }
}

/// Why no surface frame could be had for a render.
#[derive(Clone, Copy, Debug, PartialEq, Eq, Structural)]
pub enum SurfaceFailure {
    Timeout,
    Outdated,
    Lost,
    OutOfMemory,
}

/// What the frame loop does about a surface failure.
#[derive(Clone, Copy, Debug, PartialEq, Eq, Structural)]
pub enum SurfaceRecovery {
    /// Skip this frame and try again on the next.
    SkipFrame,
    /// Configure the surface anew, then skip this frame.
    ReconfigureAndSkip,
    /// Stop: the device cannot go on.
    Fatal,
}

/// A lost or outdated surface is recoverable by configuring it again, a
/// timeout by waiting for the next frame; running out of memory is fatal.
pub open spec fn recovery_of(f: SurfaceFailure) -> SurfaceRecovery {
    match f {
        SurfaceFailure::Timeout => SurfaceRecovery::SkipFrame,
        SurfaceFailure::Outdated | SurfaceFailure::Lost => SurfaceRecovery::ReconfigureAndSkip,
        SurfaceFailure::OutOfMemory => SurfaceRecovery::Fatal,
    }
}

pub fn surface_recovery(f: SurfaceFailure) -> (r: SurfaceRecovery)
    ensures
        r == recovery_of(f),
{
    match f {
        SurfaceFailure::Timeout => SurfaceRecovery::SkipFrame,
        SurfaceFailure::Outdated | SurfaceFailure::Lost => SurfaceRecovery::ReconfigureAndSkip,
        SurfaceFailure::OutOfMemory => SurfaceRecovery::Fatal,
    }
}

/// Drives the frames: it owns the run mode and the parity.
pub struct FrameOrchestrator {
    state: FrameState,
}

impl FrameOrchestrator {
    pub closed spec fn view(self) -> FrameState {
        self.state
    }

    /// Paused, no step asked for, buffer A current.
    pub fn new(surface_width: u32, surface_height: u32) -> (r: FrameOrchestrator)
        ensures
            r@ == (FrameState {
                mode: RunMode::Paused,
                step_requested: false,
                parity: false,
                surface_width,
                surface_height,
                exit_requested: false,
            }),
    {
        FrameOrchestrator {
            state: FrameState {
                mode: RunMode::Paused,
                step_requested: false,
                parity: false,
                surface_width,
                surface_height,
                exit_requested: false,
            },
        }
    }

    pub fn state(&self) -> (r: FrameState)
        ensures
            r == self@,
    {
        self.state
    }

    pub fn handle_event(&mut self, e: InputEvent) -> (r: EventOutcome)
        ensures
            final(self)@ == on_event(old(self)@, e),
            r == outcome_of(old(self)@, e),
    {
        match e {
            InputEvent::SingleStep => {
                self.state.step_requested = true;
                EventOutcome::Continue
            },
            InputEvent::ToggleRun => {
                self.state.mode = match self.state.mode {
                    RunMode::Running => RunMode::Paused,
                    RunMode::Paused => RunMode::Running,
                };
                EventOutcome::Continue
            },
            InputEvent::Exit => {
                self.state.exit_requested = true;
                EventOutcome::Exit
            },
            InputEvent::Resize { width, height } => {
                if width > 0 && height > 0 {
                    self.state.surface_width = width;
                    self.state.surface_height = height;
                    EventOutcome::ReconfigureSurface { width, height }
                } else {
                    EventOutcome::Continue
                }
            },
        }
    }

    /// Decides the work of the next frame and records the parity that it
    /// leaves behind.
    pub fn begin_frame(&mut self) -> (r: FramePlan)
        ensures
            r == plan_of(old(self)@),
            final(self)@ == after_frame(old(self)@),
    {
        let steps = match self.state.mode {
            RunMode::Running => true,
            RunMode::Paused => self.state.step_requested,
        };
        let step = if steps {
            let binding = compute_binding(self.state.parity);
            self.state.parity = !self.state.parity;
            Some(binding)
        } else {
            None
        };
        self.state.step_requested = false;
        FramePlan { step, render_source: current_buffer(self.state.parity) }
    }
}

/// The whole simulation in host memory: the generation buffers and the
/// frame loop that steps and presents them.
pub struct Simulation {
    buffers: GridBuffers,
    frames: FrameOrchestrator,
}

impl Simulation {
    pub closed spec fn buffers(self) -> GridBuffers {
        self.buffers
    }

    pub closed spec fn frames(self) -> FrameState {
        self.frames@
    }

    pub open spec fn wf(self) -> bool {
        self.buffers().wf()
    }

    /// A paused simulation seeded with `coords`.
    pub fn new(size: GridSize, coords: &Vec<(u32, u32)>, surface_width: u32, surface_height: u32) -> (r:
        Simulation)
        requires
            size.wf(),
        ensures
            r.wf(),
            r.buffers().grid() == size,
            r.buffers().texels(BufferId::A) == r.buffers().texels(BufferId::B),
            r.buffers().cells(BufferId::A) == seeded_cells(size, coords@),
            r.frames().mode == RunMode::Paused,
            !r.frames().step_requested,
            !r.frames().parity,
            r.frames().surface_width == surface_width,
            r.frames().surface_height == surface_height,
    {
        let mut buffers = GridBuffers::new(size);
        buffers.seed(coords);
        Simulation { buffers, frames: FrameOrchestrator::new(surface_width, surface_height) }
    }

    pub fn frame_state(&self) -> (r: FrameState)
        ensures
            r == self.frames(),
    {
        self.frames.state()
    }

    pub fn buffers_ref(&self) -> (r: &GridBuffers)
        ensures
            *r == self.buffers(),
    {
        &self.buffers
    }

    /// Hands an event to the frame loop; the generation buffers are left as
    /// they are.
    pub fn handle_event(&mut self, e: InputEvent) -> (r: EventOutcome)
        requires
            old(self).wf(),
        ensures
            final(self).wf(),
            final(self).buffers() == old(self).buffers(),
            final(self).frames() == on_event(old(self).frames(), e),
            r == outcome_of(old(self).frames(), e),
    {
        self.frames.handle_event(e)
    }

    /// Runs one frame: the step that the plan holds, if any, then returns the
    /// texels that the render presents.
    pub fn run_frame(&mut self) -> (r: &Vec<Texel>)
        requires
            old(self).wf(),
        ensures
            final(self).wf(),
            final(self).frames() == after_frame(old(self).frames()),
            final(self).buffers().grid() == old(self).buffers().grid(),
            !frame_steps(old(self).frames()) ==> final(self).buffers() == old(self).buffers(),
            frame_steps(old(self).frames()) ==> final(self).buffers().cells(
                current_of(final(self).frames().parity),
            ) == next_generation(
                old(self).buffers().grid(),
                old(self).buffers().cells(current_of(old(self).frames().parity)),
            ),
            final(self).buffers().texels(current_of(old(self).frames().parity)) == old(
                self,
            ).buffers().texels(current_of(old(self).frames().parity)),
            r@ == final(self).buffers().texels(plan_of(old(self).frames()).render_source),
    {
        let parity = self.frames.state().parity;
        let plan = self.frames.begin_frame();
        if plan.step.is_some() {
            self.buffers.step(parity);
        }
        self.buffers.frame_source(self.frames.state().parity)
    }
}


/// A frame that neither runs nor has a single step asked for takes no step,
/// leaves the state as it was and renders the buffer current before it; so
/// repeated idle frames render the same buffer, which no step has changed.
pub proof fn lemma_idle_frames_repeat(s: FrameState)
    requires
        s.mode == RunMode::Paused,
        !s.step_requested,
    ensures
        plan_of(s).step is None,
        after_frame(s) == s,
        plan_of(s).render_source == current_of(s.parity),
{
}

/// A resize changes only the surface size; the run mode, a pending single
/// step, the exit request and the parity stay as they were.
pub proof fn lemma_resize_keeps_simulation(s: FrameState, width: u32, height: u32)
    ensures
        ({
            let t = on_event(s, InputEvent::Resize { width, height });
            &&& t.mode == s.mode
            &&& t.step_requested == s.step_requested
            &&& t.exit_requested == s.exit_requested
            &&& t.parity == s.parity
            &&& (width > 0 && height > 0 ==> t.surface_width == width && t.surface_height
                == height)
            &&& (width == 0 || height == 0 ==> t == s)
        }),
{
}

/// A frame flips the parity exactly when it steps, and the buffer it renders
/// is the one its step wrote.
pub proof fn lemma_frame_parity(s: FrameState)
    ensures
        after_frame(s).parity == (s.parity != frame_steps(s)),
        plan_of(s).step matches Some(b) ==> b.destination == plan_of(s).render_source && b.source
            != b.destination,
{
}

} // verus!
