use gpu_life::buffers::BufferId;
use gpu_life::frame::{
    surface_recovery, EventOutcome, FrameOrchestrator, InputEvent, RunMode, Simulation,
    SurfaceFailure, SurfaceRecovery,
};
use gpu_life::grid::GridSize;

fn blinker_simulation() -> Simulation {
    let size = GridSize::new(5, 5).unwrap();
    Simulation::new(size, &vec![(1, 2), (2, 2), (3, 2)], 720, 720)
}

#[test]
fn starts_paused_on_buffer_a() {
    let mut o = FrameOrchestrator::new(720, 480);
    let s = o.state();
    assert_eq!(s.mode, RunMode::Paused);
    assert!(!s.parity);
    assert_eq!((s.surface_width, s.surface_height), (720, 480));
    let plan = o.begin_frame();
    assert_eq!(plan.step, None);
    assert_eq!(plan.render_source, BufferId::A);
}

#[test]
fn single_step_runs_exactly_once() {
    let mut o = FrameOrchestrator::new(10, 10);
    assert_eq!(o.handle_event(InputEvent::SingleStep), EventOutcome::Continue);
    let plan = o.begin_frame();
    let binding = plan.step.unwrap();
    assert_eq!(binding.source, BufferId::A);
    assert_eq!(binding.destination, BufferId::B);
    assert_eq!(plan.render_source, BufferId::B);
    assert!(o.state().parity);
    let plan = o.begin_frame();
    assert_eq!(plan.step, None);
    assert_eq!(plan.render_source, BufferId::B);
}

#[test]
fn running_steps_every_frame() {
    let mut o = FrameOrchestrator::new(10, 10);
    o.handle_event(InputEvent::ToggleRun);
    assert_eq!(o.state().mode, RunMode::Running);
    for n in 1..=5u32 {
        let plan = o.begin_frame();
        let binding = plan.step.unwrap();
        assert_eq!(binding.destination, plan.render_source);
        assert_eq!(o.state().parity, n % 2 == 1);
    }
    o.handle_event(InputEvent::ToggleRun);
    assert_eq!(o.state().mode, RunMode::Paused);
    assert_eq!(o.begin_frame().step, None);
}

#[test]
fn exit_is_reported() {
    let mut o = FrameOrchestrator::new(10, 10);
    assert_eq!(o.handle_event(InputEvent::Exit), EventOutcome::Exit);
    assert!(o.state().exit_requested);
}

#[test]
fn idle_frames_render_identical_output() {
    let mut sim = blinker_simulation();
    let first = sim.run_frame().clone();
    for _ in 0..3 {
        assert_eq!(sim.run_frame(), &first);
    }
    assert!(!sim.frame_state().parity);
}

#[test]
fn stepping_frames_present_the_new_generation() {
    let mut sim = blinker_simulation();
    let seeded = sim.run_frame().clone();
    sim.handle_event(InputEvent::SingleStep);
    let stepped = sim.run_frame().clone();
    assert_ne!(stepped, seeded);
    assert_eq!(&stepped, sim.buffers_ref().buffer(BufferId::B));
    sim.handle_event(InputEvent::SingleStep);
    assert_eq!(sim.run_frame(), &seeded);
}

#[test]
fn resize_leaves_the_grid_alone() {
    let mut sim = blinker_simulation();
    sim.handle_event(InputEvent::SingleStep);
    sim.run_frame();
    let a = sim.buffers_ref().buffer(BufferId::A).clone();
    let b = sim.buffers_ref().buffer(BufferId::B).clone();
    let before = sim.frame_state();
    let outcome = sim.handle_event(InputEvent::Resize { width: 1280, height: 640 });
    assert_eq!(outcome, EventOutcome::ReconfigureSurface { width: 1280, height: 640 });
    let after = sim.frame_state();
    assert_eq!(after.parity, before.parity);
    assert_eq!(after.mode, before.mode);
    assert_eq!((after.surface_width, after.surface_height), (1280, 640));
    assert_eq!(sim.buffers_ref().buffer(BufferId::A), &a);
    assert_eq!(sim.buffers_ref().buffer(BufferId::B), &b);
    assert_eq!(sim.buffers_ref().grid_size(), GridSize::new(5, 5).unwrap());
}

#[test]
fn resize_to_an_empty_area_is_ignored() {
    let mut o = FrameOrchestrator::new(300, 200);
    assert_eq!(
        o.handle_event(InputEvent::Resize { width: 0, height: 50 }),
        EventOutcome::Continue
    );
    let s = o.state();
    assert_eq!((s.surface_width, s.surface_height), (300, 200));
}

#[test]
fn surface_failures_are_classified() {
    assert_eq!(surface_recovery(SurfaceFailure::Lost), SurfaceRecovery::ReconfigureAndSkip);
    assert_eq!(surface_recovery(SurfaceFailure::Outdated), SurfaceRecovery::ReconfigureAndSkip);
    assert_eq!(surface_recovery(SurfaceFailure::Timeout), SurfaceRecovery::SkipFrame);
    assert_eq!(surface_recovery(SurfaceFailure::OutOfMemory), SurfaceRecovery::Fatal);
}

#[test]
fn running_simulation_moves_a_glider() {
    let size = GridSize::new(12, 12).unwrap();
    let glider = vec![(3, 2), (4, 3), (2, 4), (3, 4), (4, 4)];
    let mut sim = Simulation::new(size, &glider, 100, 100);
    sim.handle_event(InputEvent::ToggleRun);
    for _ in 0..4 {
        sim.run_frame();
    }
    let shown = sim.run_frame().clone();
    // Four frames bring the glider one cell down and right; the fifth is
    // its first phase again, one step on.
    let mut reference = Simulation::new(size, &glider.iter().map(|&(x, y)| (x + 1, y + 1)).collect(), 100, 100);
    reference.handle_event(InputEvent::SingleStep);
    assert_eq!(&shown, reference.run_frame());
    assert!(sim.frame_state().parity);
}
