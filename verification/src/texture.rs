//! What the library knows of a texture on the GPU.

use vstd::prelude::*;
use crate::canvas::Canvas;
use crate::command::{lemma_staging_size, readback_commands, spec_readback_commands, GpuCommand};
use crate::dimension::Dimension;
use crate::error::Error;
use crate::graphics::Graphics;
use crate::usage::{TextureUsage, TextureUsages};

verus! {

/// A texture: its size in pixels and the uses it was created with. Every
/// pixel takes four bytes, one for each channel of an
/// [`Rgba`](crate::rgba::Rgba).
#[derive(Clone, Copy, Debug)]
pub struct Texture {
    size: Dimension,
    usage: TextureUsages,
}

/// The uses of a texture that is created without any data: every use but
/// storage binding.
pub open spec fn spec_blank_usage() -> Set<TextureUsage> {
    Set::<TextureUsage>::full().remove(TextureUsage::StorageBinding)
}

/// The uses of a texture that is only sampled and copied to and from.
pub open spec fn spec_sampled_usage() -> Set<TextureUsage> {
    set![TextureUsage::TextureBinding, TextureUsage::CopyDst, TextureUsage::CopySrc]
}

impl Texture {
    #[verifier::type_invariant]
    spec fn inv(self) -> bool {
        self.wf()
    }

    /// The size of the texture.
    pub closed spec fn spec_dimension(&self) -> Dimension {
        self.size
    }

    /// The uses the texture was created with.
    pub closed spec fn spec_usage(&self) -> TextureUsages {
        self.usage
    }

    /// What holds of every texture: its size is one a texture can have.
    pub open spec fn wf(&self) -> bool {
        self.spec_dimension().spec_is_texture_size()
    }

    /// What [`Texture::make_texture`] answers for a size and `len` bytes
    /// of data: the uses of the new texture, or the error.
    pub open spec fn spec_make_texture(size: Dimension, len: int) -> Result<
        Set<TextureUsage>,
        Error,
    > {
        if len != size.spec_area() * 4 {
            Err(Error::SizeMismatch { expected: (size.spec_area() * 4) as u64, got: len as u64 })
        } else {
            Ok(spec_blank_usage())
        }
    }

    /// Creates a [Texture] of size `size` with the uses `usage`.
    #[inline]
    pub fn from_raw_parts(size: Dimension, usage: TextureUsages) -> (texture: Self)
        requires
            size.spec_is_texture_size(),
        ensures
            texture.spec_dimension() == size,
            texture.spec_usage() == usage,
            texture.wf(),
    {
        Self { size, usage }
    }

    /// Describes a new texture of size `size` that holds no data yet. It
    /// may be used for everything but storage binding.
    pub fn make_blank_texture(size: Dimension) -> (texture: Self)
        requires
            size.spec_is_texture_size(),
        ensures
            texture.spec_dimension() == size,
            texture.spec_usage()@ == spec_blank_usage(),
            texture.wf(),
    {
        Self { size, usage: TextureUsages::all().without(TextureUsage::StorageBinding) }
    }

    /// Describes a new texture of size `size` that holds no data yet and
    /// is only sampled and copied to and from.
    pub fn make_sampled_texture(size: Dimension) -> (texture: Self)
        requires
            size.spec_is_texture_size(),
        ensures
            texture.spec_dimension() == size,
            texture.spec_usage()@ == spec_sampled_usage(),
            texture.wf(),
    {
        let usage = TextureUsages::empty().with(TextureUsage::TextureBinding).with(
            TextureUsage::CopyDst,
        ).with(TextureUsage::CopySrc);
        assert(usage@ =~= spec_sampled_usage());
        Self { size, usage }
    }

    /// Describes a new texture of size `size` that is created with
    /// `data`.
    ///
    /// Fails with a size mismatch, and describes nothing, unless `data`
    /// holds exactly four bytes for each pixel.
    pub fn make_texture(size: Dimension, data: &[u8]) -> (outcome: Result<Self, Error>)
        requires
            size.spec_is_texture_size(),
        ensures
            match outcome {
                Ok(texture) => {
                    &&& Self::spec_make_texture(size, data@.len() as int) == Ok::<
                        Set<TextureUsage>,
                        Error,
                    >(texture.spec_usage()@)
                    &&& texture.spec_dimension() == size
                    &&& texture.wf()
                },
                Err(error) => Self::spec_make_texture(size, data@.len() as int) == Err::<
                    Set<TextureUsage>,
                    Error,
                >(error),
            },
    {
        proof {
            lemma_staging_size(size);
        }
        let expected: u64 = size.area() as u64 * 4;
        let got: u64 = data.len() as u64;
        if got != expected {
            return Err(Error::SizeMismatch { expected, got });
        }
        Ok(Self::make_blank_texture(size))
    }

    /// Returns the [Dimension] which represents the size of this
    /// [Texture].
    #[inline]
    #[verifier::when_used_as_spec(spec_dimension)]
    pub fn dimension(&self) -> (size: Dimension)
        ensures
            size == self.spec_dimension(),
            self.wf(),
    {
        proof {
            use_type_invariant(self);
        }
        self.size
    }

    /// Returns the width of this [Texture].
    #[inline]
    pub fn width(&self) -> (width: u32)
        ensures
            width == self.spec_dimension().width,
            width > 0,
    {
        self.dimension().width
    }

    /// Returns the height of this [Texture].
    #[inline]
    pub fn height(&self) -> (height: u32)
        ensures
            height == self.spec_dimension().height,
            height > 0,
    {
        self.dimension().height
    }

    /// Returns the uses this [Texture] was created with. Any operation
    /// whose use is not in this set fails.
    #[inline]
    #[verifier::when_used_as_spec(spec_usage)]
    pub fn usage(&self) -> (usage: TextureUsages)
        ensures
            usage == self.spec_usage(),
    {
        self.usage
    }

    /// Creates a [Graphics] instance for this texture.
    #[inline]
    pub fn graphics(&self) -> (graphics: Graphics)
        ensures
            graphics.spec_size() == self.spec_dimension(),
            graphics.wf(),
    {
        Graphics::from_raw_parts(self.dimension())
    }

    /// Creates a [Canvas] for reading and writing this texture.
    #[inline]
    pub fn canvas(&self) -> (canvas: Canvas)
        ensures
            canvas.spec_size() == self.spec_dimension(),
            canvas.spec_usage() == self.spec_usage(),
            canvas.wf(),
    {
        Canvas::from_raw_parts(self.dimension(), self.usage)
    }

    /// The commands that transfer the pixels of a texture of size `size`
    /// to a buffer on the GPU and map it: the buffer is created with one
    /// padded row for each row of the texture, and the copy is told the
    /// number of rows.
    pub fn texture_to_buffer(size: Dimension) -> (commands: Vec<GpuCommand>)
        requires
            size.spec_is_texture_size(),
        ensures
            commands@ == spec_readback_commands(size, Some(size.height)),
    {
        readback_commands(size, Some(size.height))
    }
}

} // verus!
