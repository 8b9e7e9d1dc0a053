//! An owned, densely packed pixel buffer.

use vstd::prelude::*;
use crate::dimension::Dimension;

verus! {

/// The pixels of a texture, row after row with no gap between rows.
#[derive(Clone, Debug, PartialEq, Eq)]
pub struct Pixels {
    /// The size of the texture.
    size: Dimension,
    /// The pixels of the texture.
    buffer: Vec<u8>,
}

impl Pixels {
    /// The bytes of the buffer.
    pub closed spec fn view(&self) -> Seq<u8> {
        self.buffer@
    }

    /// The size of the texture that the pixels belong to.
    pub closed spec fn spec_size(&self) -> Dimension {
        self.size
    }

    /// Whether the buffer holds exactly four bytes for each pixel of its
    /// size.
    pub open spec fn is_packed(&self) -> bool {
        self@.len() == self.spec_size().spec_area() * 4
    }

    /// Creates a [Pixels] instance from its raw parts.
    #[inline]
    pub fn from_raw_parts(size: Dimension, buffer: Vec<u8>) -> (pixels: Self)
        ensures
            pixels.spec_size() == size,
            pixels@ == buffer@,
    {
        Self { size, buffer }
    }

    /// The size of the texture that the pixels belong to.
    #[inline]
    #[verifier::when_used_as_spec(spec_size)]
    pub fn size(&self) -> (size: Dimension)
        ensures
            size == self.spec_size(),
    {
        self.size
    }

    /// Creates a [`Vec<u8>`] from this [Pixels] buffer.
    #[inline]
    pub fn to_vec(&self) -> (bytes: Vec<u8>)
        ensures
            bytes@ == self@,
    {
        self.buffer.clone()
    }

    /// Turns this [Pixels] buffer into its [`Vec<u8>`].
    #[inline]
    pub fn into_vec(self) -> (bytes: Vec<u8>)
        ensures
            bytes@ == self@,
    {
        self.buffer
    }

    /// Borrows the bytes of the buffer.
    #[inline]
    pub fn as_slice(&self) -> (bytes: &[u8])
        ensures
            bytes@ == self@,
    {
        self.buffer.as_slice()
    }
}

} // verus!
