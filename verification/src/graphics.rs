//! Editing the pixels of a texture in place.

use vstd::prelude::*;
use crate::command::{
    lemma_staging_size, spec_readback_commands, spec_staging_size, spec_upload_commands,
    staging_size, upload_commands, GpuCommand,
};
use crate::dimension::Dimension;
use crate::error::Error;
use crate::layout::{padded_stride, spec_padded_stride};
use crate::pixels_mut::PixelsMut;
use crate::texture::Texture;

verus! {

/// Access to the pixels of a texture for editing them.
#[derive(Clone, Copy, Debug)]
pub struct Graphics {
    size: Dimension,
}

/// What has to go back to the texture after its pixels were edited.
#[derive(Debug)]
pub struct TextureUpload {
    /// The padded bytes to write into the upload buffer.
    pub data: Vec<u8>,
    /// What the device has to do with them.
    pub commands: Vec<GpuCommand>,
}

impl Graphics {
    #[verifier::type_invariant]
    spec fn inv(self) -> bool {
        self.wf()
    }

    /// The size of the texture.
    pub closed spec fn spec_size(&self) -> Dimension {
        self.size
    }

    /// What holds of every [Graphics]: its size is one a texture can
    /// have.
    pub open spec fn wf(&self) -> bool {
        self.spec_size().spec_is_texture_size()
    }

    /// Whether `view` is the view that [`Graphics::pixels_mut`] makes of
    /// the staging bytes `staging`.
    pub open spec fn is_staged_view(&self, view: PixelsMut, staging: Seq<u8>) -> bool {
        &&& view.wf()
        &&& view.bytes() == staging
        &&& view.spec_size() == self.spec_size()
        &&& view.spec_stride() == spec_padded_stride(self.spec_size().width as int)
    }

    /// Whether `outcome` is what [`Graphics::pixels_mut`] makes of the
    /// view `edited` and the value `value` that the callback returned:
    /// the value together with the view's bytes and the upload commands,
    /// or a size mismatch when the view no longer has the length of the
    /// staging buffer.
    pub open spec fn is_upload_of<T>(
        &self,
        outcome: Result<(T, TextureUpload), Error>,
        edited: PixelsMut,
        value: T,
    ) -> bool {
        if edited.bytes().len() == spec_staging_size(self.spec_size()) {
            &&& outcome matches Ok((returned, upload))
            &&& returned == value
            &&& upload.data@ == edited.bytes()
            &&& upload.commands@ == spec_upload_commands(self.spec_size())
        } else {
            outcome == Err::<(T, TextureUpload), Error>(
                Error::SizeMismatch {
                    expected: spec_staging_size(self.spec_size()) as u64,
                    got: edited.bytes().len() as u64,
                },
            )
        }
    }

    /// Creates a [Graphics] instance for a texture of size `size`.
    #[inline]
    pub fn from_raw_parts(size: Dimension) -> (graphics: Self)
        requires
            size.spec_is_texture_size(),
        ensures
            graphics.spec_size() == size,
            graphics.wf(),
    {
        Self { size }
    }

    /// The size of the texture.
    #[verifier::when_used_as_spec(spec_size)]
    pub fn size(&self) -> (size: Dimension)
        ensures
            size == self.spec_size(),
            self.wf(),
    {
        proof {
            use_type_invariant(self);
        }
        self.size
    }

    /// The commands that bring the pixels of the texture into a mapped
    /// staging buffer, for [`Graphics::pixels_mut`] to work on.
    pub fn staging(&self) -> (commands: Vec<GpuCommand>)
        ensures
            commands@ == spec_readback_commands(self.spec_size(), Some(self.spec_size().height)),
            self.wf(),
    {
        proof {
            use_type_invariant(self);
        }
        Texture::texture_to_buffer(self.size)
    }

    /// Accesses the raw pixels of the texture, allowing the provided
    /// function to modify them, and says how they get back to the GPU.
    ///
    /// `mapped` holds the staging bytes that the device mapped after the
    /// commands of [`Graphics::staging`], or `None` when it failed to. The
    /// callback receives them as a [PixelsMut] and returns the view
    /// together with a value of its own. The bytes of the returned view,
    /// padding included, are what the upload commands write back.
    pub fn pixels_mut<T, F: FnOnce(PixelsMut) -> (PixelsMut, T)>(
        &self,
        mapped: Option<Vec<u8>>,
        callback: F,
    ) -> (outcome: Result<(T, TextureUpload), Error>)
        requires
            forall|view: PixelsMut|
                mapped matches Some(staging) && self.is_staged_view(view, staging@)
                    ==> call_requires(callback, (view,)),
        ensures
            self.wf(),
            match mapped {
                Some(staging) if staging@.len() == spec_staging_size(self.spec_size()) => {
                    exists|view: PixelsMut, edited: PixelsMut, value: T|
                        {
                            &&& self.is_staged_view(view, staging@)
                            &&& #[trigger] call_ensures(callback, (view,), (edited, value))
                            &&& self.is_upload_of(outcome, edited, value)
                        }
                },
                _ => outcome == Err::<(T, TextureUpload), Error>(Error::DeviceFailure),
            },
    {
        proof {
            use_type_invariant(self);
            lemma_staging_size(self.size);
        }
        let staging = match mapped {
            Some(staging) => staging,
            None => {
                return Err(Error::DeviceFailure);
            },
        };
        let expected: u64 = staging_size(self.size);
        if staging.len() as u64 != expected {
            return Err(Error::DeviceFailure);
        }
        let ghost staged = staging@;
        let view = match PixelsMut::new(staging, padded_stride(self.size.width) as usize, self.size) {
            Some(view) => view,
            None => {
                return Err(Error::DeviceFailure);
            },
        };
        let ghost before = view;
        let (edited, value) = callback(view);
        let ghost after = edited;
        let data = edited.into_bytes();
        let got: u64 = data.len() as u64;
        let outcome = if got != expected {
            Err(Error::SizeMismatch { expected, got })
        } else {
            Ok((value, TextureUpload { data, commands: upload_commands(self.size) }))
        };
        assert(self.is_staged_view(before, staged));
        assert(call_ensures(callback, (before,), (after, value)));
        assert(self.is_upload_of(outcome, after, value));
        outcome
    }
}

} // verus!
