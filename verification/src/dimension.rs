//! Width and height of an object, in whole pixels.

use vstd::prelude::*;
use crate::layout::{padded_stride, spec_padded_stride};

verus! {

/// The width and height of an object in integer precision.
#[derive(Clone, Copy, Debug, Hash, PartialEq, Eq, Structural, PartialOrd, Ord)]
pub struct Dimension {
    pub width: u32,
    pub height: u32,
}

impl Dimension {
    /// Creates a new [Dimension] with the provided *width* and *height*.
    #[inline]
    pub fn new(width: u32, height: u32) -> (size: Self)
        ensures
            size.width == width,
            size.height == height,
    {
        Self { width, height }
    }

    /// The surface area as a mathematical integer.
    pub open spec fn spec_area(self) -> int {
        self.width * self.height
    }

    /// Returns the total surface area of this [Dimension].
    ///
    /// Equivalent to `width * height`.
    #[inline]
    pub fn area(&self) -> (area: u32)
        requires
            self.spec_area() <= u32::MAX,
        ensures
            area == self.spec_area(),
    {
        self.width * self.height
    }

    /// Whether a texture can have this size: neither side is zero, the
    /// area fits in 32 bits, and so does the stride of a padded row.
    pub open spec fn spec_is_texture_size(self) -> bool {
        &&& self.width > 0
        &&& self.height > 0
        &&& self.spec_area() <= u32::MAX
        &&& spec_padded_stride(self.width as int) <= u32::MAX
    }

    /// Whether a texture can have this size: neither side is zero, the
    /// area fits in 32 bits, and so does the stride of a padded row.
    #[verifier::when_used_as_spec(spec_is_texture_size)]
    pub fn is_texture_size(self) -> (supported: bool)
        ensures
            supported == self.spec_is_texture_size(),
    {
        assert(self.width * self.height <= u64::MAX) by (nonlinear_arith)
            requires
                self.width <= u32::MAX,
                self.height <= u32::MAX,
        ;
        let area: u64 = self.width as u64 * self.height as u64;
        self.width > 0 && self.height > 0 && area <= u32::MAX as u64 && padded_stride(self.width)
            <= u32::MAX as u64
    }

    /// Converts this [Dimension] to a [`wgpu::Extent3d`] with `1` depth.
    pub fn to_extent_3d(&self) -> (extent: wgpu::Extent3d)
        ensures
            extent.width == self.width,
            extent.height == self.height,
            extent.depth_or_array_layers == 1,
    {
        wgpu::Extent3d { width: self.width, height: self.height, depth_or_array_layers: 1 }
    }
}

impl Default for Dimension {
    fn default() -> (size: Self)
        ensures
            size.width == 0,
            size.height == 0,
    {
        Self { width: 0, height: 0 }
    }
}

} // verus!
