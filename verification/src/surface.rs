//! The decisions behind configuring a window's surface.

use vstd::prelude::*;
use crate::dimension::Dimension;

verus! {

/// Picks the format of a surface from the formats it supports, given for
/// each whether it is an sRGB format: the first sRGB format, or the very
/// first format where none is sRGB. `None` where the surface supports no
/// format at all.
pub fn preferred_format(is_srgb: &[bool]) -> (index: Option<usize>)
    ensures
        index is None <==> is_srgb@.len() == 0,
        index matches Some(i) ==> {
            &&& i < is_srgb@.len()
            &&& forall|j: int| 0 <= j < i ==> !is_srgb@[j]
            &&& is_srgb@[i as int] || (i == 0 && forall|j: int|
                0 <= j < is_srgb@.len() ==> !is_srgb@[j])
        },
{
    if is_srgb.len() == 0 {
        return None;
    }
    let mut i: usize = 0;
    while i < is_srgb.len()
        invariant
            i <= is_srgb@.len(),
            forall|j: int| 0 <= j < i ==> !is_srgb@[j],
        decreases is_srgb@.len() - i,
    {
        if is_srgb[i] {
            return Some(i);
        }
        i += 1;
    }
    Some(0)
}

/// The size to configure a surface with after its window was resized to
/// `requested`, or `None` where the surface is to be left as it is: a
/// size without area is ignored.
pub fn resize_surface(requested: Dimension) -> (configured: Option<Dimension>)
    ensures
        configured == if requested.width > 0 && requested.height > 0 {
            Some(requested)
        } else {
            None
        },
{
    if requested.width > 0 && requested.height > 0 {
        Some(requested)
    } else {
        None
    }
}

} // verus!
