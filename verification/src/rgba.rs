//! Four-channel, one-byte-per-channel colors and their byte layout.

use vstd::prelude::*;

verus! {

/// A color with 4 channels: red, green, blue and alpha.
///
/// In memory a pixel is the four channel bytes in exactly this order.
#[derive(Clone, Copy, Debug, Hash, PartialEq, Eq, Structural, PartialOrd, Ord)]
pub struct Rgba {
    pub red: u8,
    pub green: u8,
    pub blue: u8,
    pub alpha: u8,
}

impl Rgba {
    /// The size of an [Rgba] in bytes.
    pub const SIZE: usize = 4;

    /// The color stored in the four bytes of `bytes` that start at `offset`.
    pub open spec fn decode(bytes: Seq<u8>, offset: int) -> Rgba {
        Rgba {
            red: bytes[offset],
            green: bytes[offset + 1],
            blue: bytes[offset + 2],
            alpha: bytes[offset + 3],
        }
    }

    /// The four bytes that store this color.
    pub open spec fn encode(self) -> Seq<u8> {
        seq![self.red, self.green, self.blue, self.alpha]
    }

    /// `bytes` with the four bytes starting at `offset` replaced by this color.
    pub open spec fn store(self, bytes: Seq<u8>, offset: int) -> Seq<u8> {
        bytes.update(offset, self.red).update(offset + 1, self.green).update(
            offset + 2,
            self.blue,
        ).update(offset + 3, self.alpha)
    }

    /// Creates a new [Rgba] color.
    #[inline]
    pub fn new(red: u8, green: u8, blue: u8, alpha: u8) -> (color: Self)
        ensures
            color == (Rgba { red, green, blue, alpha }),
    {
        Self { red, green, blue, alpha }
    }

    /// Opaque black.
    pub open spec fn spec_black() -> Rgba {
        Rgba { red: 0, green: 0, blue: 0, alpha: 255 }
    }

    /// Opaque white.
    pub open spec fn spec_white() -> Rgba {
        Rgba { red: 255, green: 255, blue: 255, alpha: 255 }
    }

    /// Opaque black.
    #[inline]
    #[verifier::when_used_as_spec(spec_black)]
    pub fn black() -> (color: Self)
        ensures
            color == Rgba::spec_black(),
    {
        Self::new(0, 0, 0, 255)
    }

    /// Opaque white.
    #[inline]
    #[verifier::when_used_as_spec(spec_white)]
    pub fn white() -> (color: Self)
        ensures
            color == Rgba::spec_white(),
    {
        Self::new(255, 255, 255, 255)
    }

    /// Creates an [Rgba] from the first four bytes of the provided slice.
    ///
    /// Returns `None` when the slice holds fewer than four bytes.
    pub fn from_slice(slice: &[u8]) -> (color: Option<Self>)
        ensures
            color == if slice@.len() < 4 {
                None
            } else {
                Some(Rgba::decode(slice@, 0))
            },
    {
        if slice.len() < 4 {
            return None;
        }
        Some(Self::new(slice[0], slice[1], slice[2], slice[3]))
    }

    /// Returns this [Rgba]'s bytes, in channel order.
    #[inline]
    pub fn as_slice(&self) -> (bytes: [u8; 4])
        ensures
            bytes@ == self.encode(),
    {
        [self.red, self.green, self.blue, self.alpha]
    }
}

impl Default for Rgba {
    fn default() -> (color: Self)
        ensures
            color == (Rgba { red: 0, green: 0, blue: 0, alpha: 0 }),
    {
        Self { red: 0, green: 0, blue: 0, alpha: 0 }
    }
}

/// Decoding what `encode` wrote gives the color back.
pub proof fn lemma_decode_encode(color: Rgba)
    ensures
        Rgba::decode(color.encode(), 0) == color,
        color.encode().len() == Rgba::SIZE,
{
}

/// Storing a color makes it the one decoded at that offset, keeps the
/// length, and leaves every other byte alone.
pub proof fn lemma_store_decode(color: Rgba, bytes: Seq<u8>, offset: int)
    requires
        0 <= offset,
        offset + 4 <= bytes.len(),
    ensures
        color.store(bytes, offset).len() == bytes.len(),
        Rgba::decode(color.store(bytes, offset), offset) == color,
        forall|i: int|
            0 <= i < bytes.len() && !(offset <= i < offset + 4) ==> color.store(bytes, offset)[i]
                == bytes[i],
{
}

} // verus!
