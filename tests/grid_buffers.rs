use gpu_life::buffers::{compute_binding, current_buffer, BufferId, ComputeStep, GridBuffers};
use gpu_life::dispatch::{workgroup_count, Workgroups};
use gpu_life::grid::{texel_for, texel_is_alive, GridSize, Texel};
use gpu_life::life::{next_texel, step_into};
use gpu_life::seed::{seed_pattern, seed_texels, Tiling};

const ALIVE: Texel = [255, 255, 255, 255];
const DEAD: Texel = [0, 0, 0, 0];

fn grid(width: u32, height: u32) -> GridSize {
    GridSize::new(width, height).unwrap()
}

fn seeded(width: u32, height: u32, coords: &[(u32, u32)]) -> GridBuffers {
    let mut buffers = GridBuffers::new(grid(width, height));
    buffers.seed(&coords.to_vec());
    buffers
}

fn alive_cells(texels: &[Texel], width: u32) -> Vec<(u32, u32)> {
    let mut out = Vec::new();
    for (i, t) in texels.iter().enumerate() {
        if *t == ALIVE {
            out.push((i as u32 % width, i as u32 / width));
        } else {
            assert_eq!(*t, DEAD);
        }
    }
    out.sort();
    out
}

fn glider() -> Vec<(u32, u32)> {
    vec![(3, 2), (4, 3), (2, 4), (3, 4), (4, 4)]
}

#[test]
fn grid_size_rejects_empty_and_oversized() {
    assert!(GridSize::new(0, 5).is_none());
    assert!(GridSize::new(5, 0).is_none());
    assert!(GridSize::new(u32::MAX, 1).is_none());
    let g = GridSize::new(2048, 2048).unwrap();
    assert_eq!((g.width, g.height), (2048, 2048));
    assert_eq!(g.cell_count(), 2048 * 2048);
    assert_eq!(g.cell_index(3, 2), 2 * 2048 + 3);
}

#[test]
fn texels_are_white_or_transparent() {
    assert_eq!(texel_for(true), ALIVE);
    assert_eq!(texel_for(false), DEAD);
    assert!(texel_is_alive(&ALIVE));
    assert!(!texel_is_alive(&DEAD));
    assert!(!texel_is_alive(&[255, 255, 255, 0]));
}

#[test]
fn new_buffers_are_dead_and_equal() {
    let buffers = GridBuffers::new(grid(7, 3));
    assert_eq!(buffers.buffer(BufferId::A).len(), 21);
    assert!(buffers.buffer(BufferId::A).iter().all(|t| *t == DEAD));
    assert_eq!(buffers.buffer(BufferId::A), buffers.buffer(BufferId::B));
}

#[test]
fn seed_writes_both_buffers_identically() {
    let coords = vec![(0, 0), (4, 1), (2, 2), (2, 2)];
    let buffers = seeded(5, 3, &coords);
    let a = buffers.buffer(BufferId::A);
    let b = buffers.buffer(BufferId::B);
    assert_eq!(a, b);
    assert_eq!(alive_cells(a, 5), vec![(0, 0), (2, 2), (4, 1)]);
}

#[test]
fn seed_ignores_coordinates_outside_the_grid() {
    let buffers = seeded(4, 4, &[(4, 0), (0, 4), (1, 1), (100, 100)]);
    assert_eq!(alive_cells(buffers.buffer(BufferId::A), 4), vec![(1, 1)]);
}

#[test]
fn seed_is_a_hard_reset() {
    let mut buffers = seeded(8, 8, &[(1, 2), (2, 2), (3, 2)]);
    let p = buffers.step(false);
    assert!(p);
    buffers.seed(&vec![(5, 5)]);
    assert_eq!(alive_cells(buffers.buffer(BufferId::A), 8), vec![(5, 5)]);
    assert_eq!(buffers.buffer(BufferId::A), buffers.buffer(BufferId::B));
}

#[test]
fn seed_texels_marks_listed_cells() {
    let g = grid(3, 2);
    let t = seed_texels(&g, &vec![(2, 1), (0, 0)]);
    assert_eq!(t, vec![ALIVE, DEAD, DEAD, DEAD, DEAD, ALIVE]);
}

#[test]
fn blinker_flips_in_one_step() {
    let mut buffers = seeded(5, 5, &[(1, 2), (2, 2), (3, 2)]);
    let p = buffers.step(false);
    assert!(p);
    assert_eq!(
        alive_cells(buffers.frame_source(p), 5),
        vec![(2, 1), (2, 2), (2, 3)]
    );
    let p = buffers.step(p);
    assert!(!p);
    assert_eq!(
        alive_cells(buffers.frame_source(p), 5),
        vec![(1, 2), (2, 2), (3, 2)]
    );
}

#[test]
fn glider_moves_one_cell_diagonally_in_four_steps() {
    let mut buffers = seeded(20, 20, &glider());
    let mut parity = false;
    for _ in 0..4 {
        parity = buffers.step(parity);
    }
    assert!(!parity);
    let moved: Vec<(u32, u32)> = {
        let mut v: Vec<(u32, u32)> = glider().iter().map(|&(x, y)| (x + 1, y + 1)).collect();
        v.sort();
        v
    };
    assert_eq!(alive_cells(buffers.frame_source(parity), 20), moved);
}

#[test]
fn glider_first_step_matches_hand_computation() {
    let mut buffers = seeded(10, 10, &glider());
    let p = buffers.step(false);
    let mut expected = vec![(2, 3), (4, 3), (3, 4), (4, 4), (3, 5)];
    expected.sort();
    assert_eq!(alive_cells(buffers.frame_source(p), 10), expected);
}

#[test]
fn parity_toggles_once_per_step() {
    let mut buffers = seeded(6, 6, &[(1, 1)]);
    for start in [false, true] {
        let mut parity = start;
        for n in 1..=7u32 {
            parity = buffers.step(parity);
            assert_eq!(parity, start ^ (n % 2 == 1));
        }
    }
}

#[test]
fn step_never_writes_its_source() {
    for parity in [false, true] {
        let b = compute_binding(parity);
        assert_ne!(b.source, b.destination);
        assert_eq!(b.source, current_buffer(parity));
    }
    assert_eq!(current_buffer(false), BufferId::A);
    assert_eq!(current_buffer(true), BufferId::B);
    let mut buffers = seeded(6, 6, &[(1, 2), (2, 2), (3, 2)]);
    let before_a = buffers.buffer(BufferId::A).clone();
    let p = buffers.step(false);
    assert_eq!(buffers.buffer(BufferId::A), &before_a);
    assert_ne!(buffers.buffer(BufferId::B), &before_a);
    let before_b = buffers.buffer(BufferId::B).clone();
    buffers.step(p);
    assert_eq!(buffers.buffer(BufferId::B), &before_b);
}

#[test]
fn workgroups_cover_the_grid() {
    assert_eq!(workgroup_count(&grid(130, 20)), Workgroups { x: 9, y: 2, z: 1 });
    assert_eq!(workgroup_count(&grid(16, 16)), Workgroups { x: 1, y: 1, z: 1 });
    assert_eq!(workgroup_count(&grid(17, 1)), Workgroups { x: 2, y: 1, z: 1 });
    assert_eq!(workgroup_count(&grid(2048, 2048)), Workgroups { x: 128, y: 128, z: 1 });
}

#[test]
fn compute_step_plan_flips_parity() {
    let step = ComputeStep::new(grid(130, 20));
    let plan = step.plan(false);
    assert_eq!(plan.binding.source, BufferId::A);
    assert_eq!(plan.binding.destination, BufferId::B);
    assert_eq!(plan.workgroups, Workgroups { x: 9, y: 2, z: 1 });
    assert!(plan.next_parity);
    let plan = step.plan(true);
    assert_eq!(plan.binding.source, BufferId::B);
    assert!(!plan.next_parity);
}

#[test]
fn dead_grid_with_partial_tiles_stays_dead() {
    let mut buffers = GridBuffers::new(grid(130, 20));
    let p = buffers.step(false);
    assert!(buffers.frame_source(p).iter().all(|t| *t == DEAD));
    assert_eq!(buffers.frame_source(p).len(), 130 * 20);
}

#[test]
fn cells_at_the_edge_do_not_wrap() {
    // A vertical blinker on the last column turns horizontal; the cell it
    // would grow past the edge is not there, and nothing appears on the
    // first column of the next row.
    let mut buffers = seeded(130, 5, &[(129, 1), (129, 2), (129, 3)]);
    let p = buffers.step(false);
    assert_eq!(alive_cells(buffers.frame_source(p), 130), vec![(128, 2), (129, 2)]);
}

#[test]
fn step_into_overwrites_the_whole_destination() {
    let g = grid(3, 3);
    let src = seed_texels(&g, &vec![(0, 1), (1, 1), (2, 1)]);
    let mut dst = vec![ALIVE; 9];
    step_into(&g, &src, &mut dst);
    assert_eq!(alive_cells(&dst, 3), vec![(1, 0), (1, 1), (1, 2)]);
    assert_eq!(next_texel(&g, &src, 1, 0), ALIVE);
    assert_eq!(next_texel(&g, &src, 0, 1), DEAD);
}

#[test]
fn seed_pattern_tiles_the_motif() {
    let g = grid(2048, 2048);
    let coords = seed_pattern(&g, &glider(), Tiling { columns: 100, rows: 100, spacing: 10 });
    assert_eq!(coords.len(), 5 * 100 * 100);
    assert_eq!(&coords[0..5], &glider()[..]);
    assert!(coords.contains(&(993, 994)));
    assert!(coords.contains(&(13, 992)));
    assert!(!coords.contains(&(12, 992)));
}

#[test]
fn seed_pattern_drops_points_outside_the_grid() {
    let g = grid(12, 12);
    let coords = seed_pattern(&g, &glider(), Tiling { columns: 2, rows: 1, spacing: 8 });
    // The second copy sits at x + 8: (11, 2), (12, 3) is out, (10, 4), (11, 4), (12, 4) is out.
    let mut sorted = coords.clone();
    sorted.sort();
    assert_eq!(
        sorted,
        vec![(2, 4), (3, 2), (3, 4), (4, 3), (4, 4), (10, 4), (11, 2), (11, 4)]
    );
    let empty = seed_pattern(&g, &glider(), Tiling { columns: 0, rows: 5, spacing: 8 });
    assert!(empty.is_empty());
}
