use vstd::prelude::*;

use crate::buffers::{BufferId, GridBuffers};
use crate::grid::{GridSize, Texel};

verus! {

/// The bytes of a sequence of texels: texel after texel, each red, green,
/// blue, alpha.
pub open spec fn texel_bytes_of(texels: Seq<Texel>) -> Seq<u8> {
    Seq::new(4 * texels.len(), |i: int| texels[i / 4][i % 4])
}

/// Relies on `bytemuck::cast_slice` from `[[u8; 4]]` to `[u8]`: the same
/// memory seen as bytes, four per texel in order. With an alignment of one
/// and a length that four divides, it cannot fail.
#[verifier::external_body]
fn cast_texels(texels: &[Texel]) -> (r: &[u8])
    requires
        texels@.len() * 4 <= usize::MAX,
    ensures
        r@ == texel_bytes_of(texels@),
{
    bytemuck::cast_slice(texels)
}

/// How the texels of a generation are laid out for a device upload.
#[derive(Clone, Copy, Debug, PartialEq, Eq)]
pub struct UploadLayout {
    pub bytes_per_row: u32,
    pub rows_per_image: u32,
}

impl GridSize {
    /// Rows of `4 * width` bytes, `height` of them.
    pub fn upload_layout(&self) -> (r: UploadLayout)
        requires
            self.wf(),
        ensures
            r.bytes_per_row == 4 * self.width,
            r.rows_per_image == self.height,
    {
        UploadLayout { bytes_per_row: self.width * 4, rows_per_image: self.height }
    }
}

impl GridBuffers {
    /// The bytes of one generation buffer, as a device upload takes them.
    pub fn texel_bytes(&self, id: BufferId) -> (r: &[u8])
        requires
            self.wf(),
        ensures
            r@ == texel_bytes_of(self.texels(id)),
    {
        proof {
            crate::grid::lemma_cells_fit(self.grid());
        }
        cast_texels(self.buffer(id).as_slice())
    }
}

} // verus!
