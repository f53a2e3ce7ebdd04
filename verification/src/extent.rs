//! Pixel extents and the device capability bounds a swapchain must respect.

use vstd::prelude::*;

verus! {

/// A two-dimensional pixel extent, as the window system reports it and as the
/// swapchain is configured with it.
#[derive(Clone, Copy, Debug, PartialEq, Eq, Structural)]
pub struct Extent2D {
    pub width: u32,
    pub height: u32,
}

/// The extent bounds the device reports for a surface. A swapchain extent
/// must lie within them; a requested extent outside is clamped, not rejected.
#[derive(Clone, Copy, Debug, PartialEq, Eq, Structural)]
pub struct SurfaceCaps {
    pub min_extent: Extent2D,
    pub max_extent: Extent2D,
}

impl Extent2D {
    /// An extent with zero area cannot back a swapchain.
    pub open spec fn is_zero_area(self) -> bool {
        self.width == 0 || self.height == 0
    }
}

impl SurfaceCaps {
    /// Device-reported bounds are non-degenerate: the minimum is at least one
    /// pixel on each axis and no larger than the maximum.
    pub open spec fn wf(self) -> bool {
        &&& 1 <= self.min_extent.width <= self.max_extent.width
        &&& 1 <= self.min_extent.height <= self.max_extent.height
    }
}

/// `x` forced into the closed interval `[lo, hi]`.
pub open spec fn clamp_value(x: u32, lo: u32, hi: u32) -> u32 {
    if x < lo {
        lo
    } else if x > hi {
        hi
    } else {
        x
    }
}

/// The effective extent a configuration request yields: each axis clamped to
/// the capability bounds.
pub open spec fn clamp_extent_spec(e: Extent2D, caps: SurfaceCaps) -> Extent2D {
    Extent2D {
        width: clamp_value(e.width, caps.min_extent.width, caps.max_extent.width),
        height: clamp_value(e.height, caps.min_extent.height, caps.max_extent.height),
    }
}

/// Clamps a requested extent to the device capability bounds.
pub fn clamp_extent(e: Extent2D, caps: &SurfaceCaps) -> (r: Extent2D)
    ensures
        r == clamp_extent_spec(e, *caps),
{
    let width: u32 = if e.width < caps.min_extent.width {
        caps.min_extent.width
    } else if e.width > caps.max_extent.width {
        caps.max_extent.width
    } else {
        e.width
    };
    let height: u32 = if e.height < caps.min_extent.height {
        caps.min_extent.height
    } else if e.height > caps.max_extent.height {
        caps.max_extent.height
    } else {
        e.height
    };
    Extent2D { width, height }
}

/// A clamped extent always lies within well-formed capability bounds, and a
/// request already within the bounds passes through unchanged.
pub proof fn lemma_clamp_extent_bounds(e: Extent2D, caps: SurfaceCaps)
    requires
        caps.wf(),
    ensures
        caps.min_extent.width <= clamp_extent_spec(e, caps).width <= caps.max_extent.width,
        caps.min_extent.height <= clamp_extent_spec(e, caps).height <= caps.max_extent.height,
        caps.min_extent.width <= e.width <= caps.max_extent.width
            && caps.min_extent.height <= e.height <= caps.max_extent.height
            ==> clamp_extent_spec(e, caps) == e,
{
}

} // verus!
