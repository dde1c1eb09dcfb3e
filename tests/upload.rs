use gpu_life::buffers::{BufferId, GridBuffers};
use gpu_life::grid::GridSize;

#[test]
fn texel_bytes_follow_the_cells() {
    let size = GridSize::new(3, 1).unwrap();
    let mut buffers = GridBuffers::new(size);
    buffers.seed(&vec![(1, 0)]);
    assert_eq!(
        buffers.texel_bytes(BufferId::A),
        &[0, 0, 0, 0, 255, 255, 255, 255, 0, 0, 0, 0][..]
    );
    assert_eq!(buffers.texel_bytes(BufferId::B), buffers.texel_bytes(BufferId::A));
}

#[test]
fn upload_rows_hold_four_bytes_per_cell() {
    let layout = GridSize::new(2048, 1024).unwrap().upload_layout();
    assert_eq!(layout.bytes_per_row, 8192);
    assert_eq!(layout.rows_per_image, 1024);
}
