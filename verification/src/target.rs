//! The targets of one frame.

use crate::types::{Extent3d, TextureFormat};
use vstd::prelude::*;

verus! {

/// The color attachment of a frame: the image that the swap chain handed
/// out for it. `id` is the provider's name for the image.
#[derive(Clone, Copy, Debug, PartialEq, Eq)]
pub struct ColorTarget {
    pub id: u64,
    pub width: u32,
    pub height: u32,
    pub format: TextureFormat,
}

/// The depth attachment that goes with the swap chain's images.
#[derive(Clone, Copy, Debug, PartialEq, Eq)]
pub struct DepthTarget {
    pub id: u64,
    pub width: u32,
    pub height: u32,
}

/// What one frame is drawn to. The provider makes a new value for every
/// frame, and after a resize every value it makes has the new extent; the
/// compositor takes it by reference for one call and keeps nothing of it.
#[derive(Clone, Copy, Debug, PartialEq, Eq)]
pub struct ScreenTargets {
    pub extent: Extent3d,
    pub color: ColorTarget,
    pub depth: DepthTarget,
}

impl ScreenTargets {
    /// The extent is one layer deep and is the size of both attachments.
    pub open spec fn well_formed(&self) -> bool {
        &&& self.extent.depth_or_array_layers == 1
        &&& self.color.width == self.extent.width
        &&& self.color.height == self.extent.height
        &&& self.depth.width == self.extent.width
        &&& self.depth.height == self.extent.height
    }

    /// Whether the extent is the size of both attachments.
    pub fn is_well_formed(&self) -> (ok: bool)
        ensures
            ok == self.well_formed(),
    {
        self.extent.depth_or_array_layers == 1 && self.color.width == self.extent.width
            && self.color.height == self.extent.height && self.depth.width == self.extent.width
            && self.depth.height == self.extent.height
    }
}

} // verus!
