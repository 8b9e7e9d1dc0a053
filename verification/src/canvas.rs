//! Reading and writing the pixels of a texture.

use vstd::prelude::*;
use crate::command::{
    clear_commands, lemma_staging_size, readback_commands, spec_clear_commands,
    spec_readback_commands, spec_staging_size, spec_write_commands, staging_size, write_commands,
    GpuCommand,
};
use crate::dimension::Dimension;
use crate::error::Error;
use crate::layout::{
    holds_rows, lemma_strip_padding_of_held_rows, padded_stride, spec_padded_stride,
    spec_strip_padding, strip_padding,
};
use crate::pixels::Pixels;
use crate::usage::{TextureUsage, TextureUsages};

verus! {

/// A view into a texture used for reading or writing to it: the
/// texture's size and the uses it was created with.
#[derive(Clone, Copy, Debug)]
pub struct Canvas {
    size: Dimension,
    usage: TextureUsages,
}

/// Whether the commands or the error that came out are the ones that
/// were to come out.
pub open spec fn is_outcome(
    outcome: Result<Vec<GpuCommand>, Error>,
    expected: Result<Seq<GpuCommand>, Error>,
) -> bool {
    match outcome {
        Ok(commands) => expected == Ok::<Seq<GpuCommand>, Error>(commands@),
        Err(error) => expected == Err::<Seq<GpuCommand>, Error>(error),
    }
}

impl Canvas {
    #[verifier::type_invariant]
    spec fn inv(self) -> bool {
        self.wf()
    }

    /// The size of the texture.
    pub closed spec fn spec_size(&self) -> Dimension {
        self.size
    }

    /// The uses the texture was created with.
    pub closed spec fn spec_usage(&self) -> TextureUsages {
        self.usage
    }

    /// What holds of every canvas: its size is one a texture can have.
    pub open spec fn wf(&self) -> bool {
        self.spec_size().spec_is_texture_size()
    }

    /// What [`Canvas::write`] answers to `len` bytes of data.
    pub open spec fn spec_write(&self, len: int) -> Result<Seq<GpuCommand>, Error> {
        if !self.spec_usage()@.contains(TextureUsage::CopyDst) {
            Err(Error::MissingCapability(TextureUsage::CopyDst))
        } else if len != self.spec_size().spec_area() * 4 {
            Err(
                Error::SizeMismatch {
                    expected: (self.spec_size().spec_area() * 4) as u64,
                    got: len as u64,
                },
            )
        } else {
            Ok(spec_write_commands(self.spec_size()))
        }
    }

    /// What [`Canvas::staging`] answers.
    pub open spec fn spec_staging(&self) -> Result<Seq<GpuCommand>, Error> {
        if !self.spec_usage()@.contains(TextureUsage::CopySrc) {
            Err(Error::MissingCapability(TextureUsage::CopySrc))
        } else {
            Ok(spec_readback_commands(self.spec_size(), None))
        }
    }

    /// The packed bytes that [`Canvas::pixels`] returns for what the
    /// device mapped, or the error it fails with.
    pub open spec fn spec_pixels(&self, mapped: Option<Seq<u8>>) -> Result<Seq<u8>, Error> {
        if !self.spec_usage()@.contains(TextureUsage::CopySrc) {
            Err(Error::MissingCapability(TextureUsage::CopySrc))
        } else {
            match mapped {
                Some(staging) if staging.len() == spec_staging_size(self.spec_size()) => Ok(
                    spec_strip_padding(
                        staging,
                        self.spec_size().width * 4,
                        spec_padded_stride(self.spec_size().width as int),
                        self.spec_size().height as int,
                    ),
                ),
                _ => Err(Error::DeviceFailure),
            }
        }
    }

    /// What [`Canvas::clear`] answers.
    pub open spec fn spec_clear(&self) -> Result<Seq<GpuCommand>, Error> {
        if !self.spec_usage()@.contains(TextureUsage::RenderAttachment) {
            Err(Error::MissingCapability(TextureUsage::RenderAttachment))
        } else {
            Ok(spec_clear_commands())
        }
    }

    /// Whether the staging bytes `staging` hold the packed image `texels`
    /// the way the copy of [`Canvas::staging`] delivers the texture: row
    /// after row at the padded stride, with anything in the padding.
    pub open spec fn is_staged(&self, staging: Seq<u8>, texels: Seq<u8>) -> bool {
        holds_rows(
            staging,
            texels,
            self.spec_size().width * 4,
            spec_padded_stride(self.spec_size().width as int),
            self.spec_size().height as int,
        )
    }

    /// Reading returns the packed image that the staging buffer holds.
    pub proof fn lemma_pixels_of_staged(&self, staging: Seq<u8>, texels: Seq<u8>)
        requires
            self.wf(),
            self.spec_usage()@.contains(TextureUsage::CopySrc),
            self.is_staged(staging, texels),
        ensures
            self.spec_pixels(Some(staging)) == Ok::<Seq<u8>, Error>(texels),
    {
        lemma_strip_padding_of_held_rows(
            staging,
            texels,
            self.spec_size().width * 4,
            spec_padded_stride(self.spec_size().width as int),
            self.spec_size().height as int,
        );
    }

    /// Writing a packed buffer and reading the texture back returns the
    /// same bytes: on a texture that may be copied to and from, `write`
    /// accepts every buffer of four bytes for each pixel, and once the
    /// staging buffer holds those bytes, `pixels` returns them.
    pub proof fn lemma_write_then_read(&self, data: Seq<u8>, staging: Seq<u8>)
        requires
            self.wf(),
            self.spec_usage()@.contains(TextureUsage::CopyDst),
            self.spec_usage()@.contains(TextureUsage::CopySrc),
            data.len() == self.spec_size().spec_area() * 4,
            self.is_staged(staging, data),
        ensures
            self.spec_write(data.len() as int) == Ok::<Seq<GpuCommand>, Error>(
                spec_write_commands(self.spec_size()),
            ),
            self.spec_pixels(Some(staging)) == Ok::<Seq<u8>, Error>(data),
    {
        self.lemma_pixels_of_staged(staging, data);
    }

    /// Reading twice with no write in between returns the same bytes:
    /// two staging buffers that hold the same image give the same answer,
    /// whatever stands in their padding.
    pub proof fn lemma_read_is_repeatable(&self, first: Seq<u8>, second: Seq<u8>, texels: Seq<u8>)
        requires
            self.wf(),
            self.is_staged(first, texels),
            self.is_staged(second, texels),
        ensures
            self.spec_pixels(Some(first)) == self.spec_pixels(Some(second)),
    {
        if self.spec_usage()@.contains(TextureUsage::CopySrc) {
            self.lemma_pixels_of_staged(first, texels);
            self.lemma_pixels_of_staged(second, texels);
        }
    }

    /// A buffer that is one byte short is refused with both lengths, and
    /// no command comes out.
    pub proof fn lemma_short_write_is_refused(&self)
        requires
            self.wf(),
            self.spec_usage()@.contains(TextureUsage::CopyDst),
        ensures
            self.spec_write(self.spec_size().spec_area() * 4 - 1) == Err::<Seq<GpuCommand>, Error>(
                Error::SizeMismatch {
                    expected: (self.spec_size().spec_area() * 4) as u64,
                    got: (self.spec_size().spec_area() * 4 - 1) as u64,
                },
            ),
    {
    }

    /// A texture that may not be the source of a copy is not read: no
    /// command comes out, and no pixels, whatever the device mapped.
    pub proof fn lemma_read_needs_copy_source(&self, mapped: Option<Seq<u8>>)
        requires
            !self.spec_usage()@.contains(TextureUsage::CopySrc),
        ensures
            self.spec_staging() == Err::<Seq<GpuCommand>, Error>(
                Error::MissingCapability(TextureUsage::CopySrc),
            ),
            self.spec_pixels(mapped) == Err::<Seq<u8>, Error>(
                Error::MissingCapability(TextureUsage::CopySrc),
            ),
    {
    }

    /// Creates a [Canvas] for a texture of size `size` that was created
    /// with the uses `usage`.
    #[inline]
    pub fn from_raw_parts(size: Dimension, usage: TextureUsages) -> (canvas: Self)
        requires
            size.spec_is_texture_size(),
        ensures
            canvas.spec_size() == size,
            canvas.spec_usage() == usage,
            canvas.wf(),
    {
        Self { size, usage }
    }

    /// The size of the texture.
    #[verifier::when_used_as_spec(spec_size)]
    pub fn size(&self) -> (size: Dimension)
        ensures
            size == self.spec_size(),
            self.wf(),
    {
        proof {
            use_type_invariant(self);
        }
        self.size
    }

    /// The uses the texture was created with.
    #[verifier::when_used_as_spec(spec_usage)]
    pub fn usage(&self) -> (usage: TextureUsages)
        ensures
            usage == self.spec_usage(),
    {
        self.usage
    }

    /// Writes data directly to the texture.
    ///
    /// Checks first that the texture may be the destination of a copy,
    /// then that `data` holds exactly four bytes for each pixel, and only
    /// then hands out the one command that writes `data` at the packed row
    /// pitch.
    pub fn write(&self, data: &[u8]) -> (outcome: Result<Vec<GpuCommand>, Error>)
        ensures
            is_outcome(outcome, self.spec_write(data@.len() as int)),
            self.wf(),
    {
        proof {
            use_type_invariant(self);
            lemma_staging_size(self.size);
        }
        if !self.usage.contains(TextureUsage::CopyDst) {
            return Err(Error::MissingCapability(TextureUsage::CopyDst));
        }
        let expected: u64 = self.size.area() as u64 * 4;
        let got: u64 = data.len() as u64;
        if got != expected {
            return Err(Error::SizeMismatch { expected, got });
        }
        Ok(write_commands(self.size))
    }

    /// The commands that bring the pixels of the texture into a mapped
    /// staging buffer, or the error when the texture may not be the source
    /// of a copy.
    pub fn staging(&self) -> (outcome: Result<Vec<GpuCommand>, Error>)
        ensures
            is_outcome(outcome, self.spec_staging()),
            self.wf(),
    {
        proof {
            use_type_invariant(self);
        }
        if !self.usage.contains(TextureUsage::CopySrc) {
            return Err(Error::MissingCapability(TextureUsage::CopySrc));
        }
        Ok(readback_commands(self.size, None))
    }

    /// The pixels of the texture, from what the device mapped after the
    /// commands of [`Canvas::staging`]: the staging bytes without their
    /// row padding.
    ///
    /// `mapped` is `None` when the device failed to map the buffer. That,
    /// and a buffer of another length than was asked for, is a device
    /// failure.
    pub fn pixels(&self, mapped: Option<&[u8]>) -> (outcome: Result<Pixels, Error>)
        ensures
            match outcome {
                Ok(pixels) => {
                    &&& self.spec_pixels(
                        match mapped {
                            Some(staging) => Some(staging@),
                            None => None,
                        },
                    ) == Ok::<Seq<u8>, Error>(pixels@)
                    &&& pixels.spec_size() == self.spec_size()
                    &&& pixels.is_packed()
                },
                Err(error) => self.spec_pixels(
                    match mapped {
                        Some(staging) => Some(staging@),
                        None => None,
                    },
                ) == Err::<Seq<u8>, Error>(error),
            },
            self.wf(),
    {
        proof {
            use_type_invariant(self);
            lemma_staging_size(self.size);
        }
        if !self.usage.contains(TextureUsage::CopySrc) {
            return Err(Error::MissingCapability(TextureUsage::CopySrc));
        }
        let staging = match mapped {
            Some(staging) => staging,
            None => {
                return Err(Error::DeviceFailure);
            },
        };
        if staging.len() as u64 != staging_size(self.size) {
            return Err(Error::DeviceFailure);
        }
        let packed = strip_padding(
            staging,
            self.size.width as usize * 4,
            padded_stride(self.size.width) as usize,
            self.size.height as usize,
        );
        Ok(Pixels::from_raw_parts(self.size, packed))
    }

    /// Clears the texture: hands out the commands of a clearing render
    /// pass, or the error when the texture may not be rendered to.
    pub fn clear(&self) -> (outcome: Result<Vec<GpuCommand>, Error>)
        ensures
            is_outcome(outcome, self.spec_clear()),
    {
        if !self.usage.contains(TextureUsage::RenderAttachment) {
            return Err(Error::MissingCapability(TextureUsage::RenderAttachment));
        }
        Ok(clear_commands())
    }
}

} // verus!
