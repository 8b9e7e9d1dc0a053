//! The ways a pixel transfer can fail.

use vstd::prelude::*;
use crate::usage::TextureUsage;

verus! {

/// An error from a pixel transfer. Whatever is wrong with the request
/// itself is found before any command for the device is handed out.
#[derive(Clone, Copy, Debug, Hash, PartialEq, Eq, Structural)]
pub enum Error {
    /// The data for a texture did not match the texture's size. Both
    /// lengths are in bytes.
    SizeMismatch { expected: u64, got: u64 },
    /// The texture was not created with the use that the operation needs.
    MissingCapability(TextureUsage),
    /// The device failed to map or deliver a staging buffer.
    DeviceFailure,
}

} // verus!
