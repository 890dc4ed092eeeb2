//! The presentation surface configuration and its resize policy.
//!
//! The GPU device, queue and surface are owned by the host; this module
//! models the surface configuration that the host applies with a
//! reconfigure call: the chosen format and present mode (opaque indices
//! into the adapter's capability lists), the size in pixels, and the
//! frame-latency cap.  A resize with a zero dimension is a no-op, which
//! guards against minimized windows.

use vstd::prelude::*;

verus! {

/// The surface configuration, mirrored by the host onto the GPU surface.
/// `format` and `present_mode` are indices into the capability lists the
/// adapter reported at setup.
#[derive(Clone, Copy, Debug, PartialEq, Eq, Structural)]
pub struct SurfaceConfig {
    pub format: u32,
    pub width: u32,
    pub height: u32,
    pub present_mode: u32,
    pub desired_maximum_frame_latency: u32,
}

/// What a resize request does to the configuration: nothing when either
/// dimension is zero, otherwise it replaces the size and keeps everything
/// else.
pub open spec fn spec_resize(c: SurfaceConfig, width: u32, height: u32) -> SurfaceConfig {
    if width == 0 || height == 0 {
        c
    } else {
        SurfaceConfig { width, height, ..c }
    }
}

impl SurfaceConfig {
    /// A fresh configuration with at most two frames of in-flight latency.
    pub fn new(format: u32, width: u32, height: u32, present_mode: u32) -> (r: SurfaceConfig)
        ensures
            r == (SurfaceConfig {
                format,
                width,
                height,
                present_mode,
                desired_maximum_frame_latency: 2,
            }),
    {
        SurfaceConfig { format, width, height, present_mode, desired_maximum_frame_latency: 2 }
    }

    /// Applies a size change, ignoring requests with a zero dimension.
    /// Returns whether the configuration changed and the host must
    /// reconfigure the surface before the next frame acquisition.
    pub fn resize(&mut self, width: u32, height: u32) -> (applied: bool)
        ensures
            *final(self) == spec_resize(*old(self), width, height),
            applied == (width != 0 && height != 0),
    {
        if width == 0 || height == 0 {
            false
        } else {
            self.width = width;
            self.height = height;
            true
        }
    }
}

/// Picks the surface format: the first gamma-correct (sRGB) format of the
/// capability list, or the first format of the list when none is.  The
/// argument holds, for each reported format in order, whether it is sRGB;
/// the result is an index into that list.
pub fn select_surface_format(format_is_srgb: &Vec<bool>) -> (i: usize)
    requires
        format_is_srgb@.len() > 0,
    ensures
        i < format_is_srgb@.len(),
        (exists|j: int| 0 <= j < format_is_srgb@.len() && format_is_srgb@[j]) ==> (
        format_is_srgb@[i as int] && forall|j: int| 0 <= j < i ==> !format_is_srgb@[j]),
        (forall|j: int| 0 <= j < format_is_srgb@.len() ==> !format_is_srgb@[j]) ==> i == 0,
{
    let n = format_is_srgb.len();
    let mut k: usize = 0;
    while k < n
        invariant
            k <= n,
            n == format_is_srgb@.len(),
            forall|j: int| 0 <= j < k ==> !format_is_srgb@[j],
        decreases n - k,
    {
        if format_is_srgb[k] {
            return k;
        }
        k = k + 1;
    }
    0
}

/// Law: a resize with a zero dimension leaves the configuration untouched.
pub proof fn lemma_resize_zero_is_noop(c: SurfaceConfig, width: u32, height: u32)
    requires
        width == 0 || height == 0,
    ensures
        spec_resize(c, width, height) == c,
{
}

} // verus!
