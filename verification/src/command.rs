//! The work that a pixel transfer asks of the GPU, as plain values.
//!
//! The library decides what has to happen and in which order; whoever
//! holds the device performs the commands one after the other.

use vstd::prelude::*;
use crate::dimension::Dimension;
use crate::layout::{padded_stride, spec_padded_stride};
use crate::usage::BufferUsages;

verus! {

/// Which buffer of a transfer a command speaks of.
#[derive(Clone, Copy, Debug, Hash, PartialEq, Eq, Structural)]
pub enum BufferSlot {
    /// The buffer that receives the texture and is mapped for the CPU.
    Staging,
    /// The buffer from which edited pixels go back to the texture.
    Upload,
}

/// How an image lies in a buffer.
#[derive(Clone, Copy, Debug, Hash, PartialEq, Eq, Structural)]
pub struct BufferLayout {
    /// Where the image starts in the buffer.
    pub offset: u64,
    /// Distance in bytes between the starts of two rows.
    pub bytes_per_row: Option<u32>,
    /// Rows of one image, where the copy needs to be told.
    pub rows_per_image: Option<u32>,
}

/// One step for the device or its queue.
#[derive(Clone, Copy, Debug, Hash, PartialEq, Eq, Structural)]
pub enum GpuCommand {
    /// Create the buffer `slot` with `size` bytes, not mapped.
    CreateBuffer { slot: BufferSlot, size: u64, usage: BufferUsages },
    /// Record a copy of the whole texture into the buffer `slot`.
    CopyTextureToBuffer { slot: BufferSlot, layout: BufferLayout, extent: Dimension },
    /// Record a copy of the buffer `slot` into the whole texture.
    CopyBufferToTexture { slot: BufferSlot, layout: BufferLayout, extent: Dimension },
    /// Hand the caller's packed bytes to the queue, to be written into
    /// the whole texture.
    WriteTexture { layout: BufferLayout, extent: Dimension },
    /// Hand the edited bytes to the queue, to be written at the start of
    /// the buffer `slot`.
    WriteBuffer { slot: BufferSlot },
    /// Record a render pass that clears the texture.
    ClearPass,
    /// Submit what was recorded.
    Submit,
    /// Ask for the buffer `slot` to be mapped for reading.
    MapRead { slot: BufferSlot },
    /// Drive the device until the outstanding map request is answered.
    Poll,
    /// Release the mapping of the buffer `slot`.
    Unmap { slot: BufferSlot },
}

/// Bytes of the staging buffer for a texture of size `size`: one padded
/// row for each row of the texture.
pub open spec fn spec_staging_size(size: Dimension) -> int {
    spec_padded_stride(size.width as int) * size.height
}

/// The layout of a texture of size `size` in its staging buffer.
pub open spec fn spec_staging_layout(size: Dimension, rows_per_image: Option<u32>) -> BufferLayout {
    BufferLayout {
        offset: 0,
        bytes_per_row: Some(spec_padded_stride(size.width as int) as u32),
        rows_per_image,
    }
}

/// The commands that bring a texture into a mapped staging buffer.
pub open spec fn spec_readback_commands(size: Dimension, rows_per_image: Option<u32>) -> Seq<
    GpuCommand,
> {
    seq![
        GpuCommand::CreateBuffer {
            slot: BufferSlot::Staging,
            size: spec_staging_size(size) as u64,
            usage: BufferUsages { map_read: true, copy_src: false, copy_dst: true },
        },
        GpuCommand::CopyTextureToBuffer {
            slot: BufferSlot::Staging,
            layout: spec_staging_layout(size, rows_per_image),
            extent: size,
        },
        GpuCommand::Submit,
        GpuCommand::MapRead { slot: BufferSlot::Staging },
        GpuCommand::Poll,
    ]
}

/// The commands that bring edited staging bytes back into the texture
/// and then release the staging buffer.
pub open spec fn spec_upload_commands(size: Dimension) -> Seq<GpuCommand> {
    seq![
        GpuCommand::CreateBuffer {
            slot: BufferSlot::Upload,
            size: spec_staging_size(size) as u64,
            usage: BufferUsages { map_read: false, copy_src: true, copy_dst: true },
        },
        GpuCommand::WriteBuffer { slot: BufferSlot::Upload },
        GpuCommand::CopyBufferToTexture {
            slot: BufferSlot::Upload,
            layout: spec_staging_layout(size, Some(size.height)),
            extent: size,
        },
        GpuCommand::Submit,
        GpuCommand::Unmap { slot: BufferSlot::Staging },
    ]
}

/// The command that writes a packed buffer straight into a texture.
pub open spec fn spec_write_commands(size: Dimension) -> Seq<GpuCommand> {
    seq![
        GpuCommand::WriteTexture {
            layout: BufferLayout {
                offset: 0,
                bytes_per_row: Some((size.width * 4) as u32),
                rows_per_image: None,
            },
            extent: size,
        },
    ]
}

/// The command that releases the staging buffer once its bytes were
/// read.
pub open spec fn spec_release_commands() -> Seq<GpuCommand> {
    seq![GpuCommand::Unmap { slot: BufferSlot::Staging }]
}

/// The commands that clear a texture.
pub open spec fn spec_clear_commands() -> Seq<GpuCommand> {
    seq![GpuCommand::ClearPass, GpuCommand::Submit]
}

/// A texture's staging buffer is no smaller than its packed image and
/// fits in 64 bits.
pub proof fn lemma_staging_size(size: Dimension)
    requires
        size.spec_is_texture_size(),
    ensures
        size.spec_area() * 4 == (size.width * 4) * size.height,
        size.spec_area() * 4 <= spec_staging_size(size),
        spec_staging_size(size) <= u64::MAX,
        size.width * 4 <= spec_padded_stride(size.width as int) <= u32::MAX,
{
    let stride = spec_padded_stride(size.width as int);
    let width = size.width as int;
    let height = size.height as int;
    assert(width * height * 4 == (width * 4) * height && (width * 4) * height <= stride * height
        && stride * height <= 0xffff_ffff * 0xffff_ffff) by (nonlinear_arith)
        requires
            width * 4 <= stride <= 0xffff_ffff,
            0 <= height <= 0xffff_ffff,
            0 <= width,
    ;
}

/// Bytes of the staging buffer for a texture of size `size`.
pub fn staging_size(size: Dimension) -> (bytes: u64)
    requires
        size.spec_is_texture_size(),
    ensures
        bytes == spec_staging_size(size),
{
    proof {
        lemma_staging_size(size);
    }
    padded_stride(size.width) * size.height as u64
}

/// The layout of a texture of size `size` in its staging buffer.
pub fn staging_layout(size: Dimension, rows_per_image: Option<u32>) -> (layout: BufferLayout)
    requires
        size.spec_is_texture_size(),
    ensures
        layout == spec_staging_layout(size, rows_per_image),
{
    BufferLayout { offset: 0, bytes_per_row: Some(padded_stride(size.width) as u32), rows_per_image }
}

/// The commands that bring a texture of size `size` into a mapped staging
/// buffer: create the buffer, copy the texture into it at the padded row
/// pitch, submit, ask for the mapping, and drive the device until it is
/// there.
pub fn readback_commands(size: Dimension, rows_per_image: Option<u32>) -> (commands: Vec<
    GpuCommand,
>)
    requires
        size.spec_is_texture_size(),
    ensures
        commands@ == spec_readback_commands(size, rows_per_image),
{
    let mut commands: Vec<GpuCommand> = Vec::new();
    commands.push(
        GpuCommand::CreateBuffer {
            slot: BufferSlot::Staging,
            size: staging_size(size),
            usage: BufferUsages { map_read: true, copy_src: false, copy_dst: true },
        },
    );
    commands.push(
        GpuCommand::CopyTextureToBuffer {
            slot: BufferSlot::Staging,
            layout: staging_layout(size, rows_per_image),
            extent: size,
        },
    );
    commands.push(GpuCommand::Submit);
    commands.push(GpuCommand::MapRead { slot: BufferSlot::Staging });
    commands.push(GpuCommand::Poll);
    assert(commands@ =~= spec_readback_commands(size, rows_per_image));
    commands
}

/// The commands that bring edited staging bytes back into a texture of
/// size `size`: create the upload buffer, write the bytes into it, copy
/// it into the texture at the padded row pitch, submit, and release the
/// staging buffer.
pub fn upload_commands(size: Dimension) -> (commands: Vec<GpuCommand>)
    requires
        size.spec_is_texture_size(),
    ensures
        commands@ == spec_upload_commands(size),
{
    let mut commands: Vec<GpuCommand> = Vec::new();
    commands.push(
        GpuCommand::CreateBuffer {
            slot: BufferSlot::Upload,
            size: staging_size(size),
            usage: BufferUsages { map_read: false, copy_src: true, copy_dst: true },
        },
    );
    commands.push(GpuCommand::WriteBuffer { slot: BufferSlot::Upload });
    commands.push(
        GpuCommand::CopyBufferToTexture {
            slot: BufferSlot::Upload,
            layout: staging_layout(size, Some(size.height)),
            extent: size,
        },
    );
    commands.push(GpuCommand::Submit);
    commands.push(GpuCommand::Unmap { slot: BufferSlot::Staging });
    assert(commands@ =~= spec_upload_commands(size));
    commands
}

/// The command that writes a packed buffer straight into a texture of
/// size `size`, at the packed row pitch.
pub fn write_commands(size: Dimension) -> (commands: Vec<GpuCommand>)
    requires
        size.spec_is_texture_size(),
    ensures
        commands@ == spec_write_commands(size),
{
    proof {
        lemma_staging_size(size);
    }
    let mut commands: Vec<GpuCommand> = Vec::new();
    commands.push(
        GpuCommand::WriteTexture {
            layout: BufferLayout {
                offset: 0,
                bytes_per_row: Some(size.width * 4),
                rows_per_image: None,
            },
            extent: size,
        },
    );
    assert(commands@ =~= spec_write_commands(size));
    commands
}

/// The command that releases the staging buffer of a readback, for when
/// the mapped bytes are no longer looked at.
pub fn release_commands() -> (commands: Vec<GpuCommand>)
    ensures
        commands@ == spec_release_commands(),
{
    let mut commands: Vec<GpuCommand> = Vec::new();
    commands.push(GpuCommand::Unmap { slot: BufferSlot::Staging });
    assert(commands@ =~= spec_release_commands());
    commands
}

/// The commands that clear a texture: one clearing render pass, then
/// submit.
pub fn clear_commands() -> (commands: Vec<GpuCommand>)
    ensures
        commands@ == spec_clear_commands(),
{
    let mut commands: Vec<GpuCommand> = Vec::new();
    commands.push(GpuCommand::ClearPass);
    commands.push(GpuCommand::Submit);
    assert(commands@ =~= spec_clear_commands());
    commands
}

} // verus!
