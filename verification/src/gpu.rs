//! The few values this library takes from `wgpu` itself.

use vstd::prelude::*;

verus! {

/// Row pitch, in bytes, that buffer-texture copies must be a multiple of.
pub const ROW_ALIGNMENT: u32 = 256;

/// Makes `wgpu::Extent3d` known to the verifier together with its three
/// public `u32` fields: `width`, `height` and `depth_or_array_layers`.
#[verifier::external_type_specification]
pub struct ExExtent3d(wgpu::Extent3d);

/// Reads `wgpu::COPY_BYTES_PER_ROW_ALIGNMENT`, which `wgpu` defines as
/// the constant 256.
#[verifier::external_body]
pub(crate) fn copy_bytes_per_row_alignment() -> (alignment: u32)
    ensures
        alignment == ROW_ALIGNMENT,
{
    wgpu::COPY_BYTES_PER_ROW_ALIGNMENT
}

} // verus!
