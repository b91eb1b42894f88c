//! Adaptive sizing: deciding, once per render pass, whether the surface must
//! be resized to match freshly measured content.
//!
//! Measurements arrive already rounded to whole pixels; rounding the
//! toolkit's floating-point measurement is the caller's one-line duty. A
//! fixed axis (`Screen` or `Fixed`) ignores the measurement entirely; a `Fit`
//! axis targets the measured value. A request is only issued when the target
//! differs from the surface's current live size, so an unchanged measurement
//! never re-issues an identical request.

use vstd::prelude::*;

use crate::geometry::SurfaceGeometry;

verus! {

/// The size the surface should have, given the resolved geometry and a
/// rounded content measurement: a pinned axis keeps its pinned value, a
/// content-governed axis takes the measurement.
pub open spec fn target_size_spec(g: SurfaceGeometry, measured_w: u32, measured_h: u32) -> (
    u32,
    u32,
) {
    (
        match g.width {
            Some(w) => w,
            None => measured_w,
        },
        match g.height {
            Some(h) => h,
            None => measured_h,
        },
    )
}

/// The resize decision: a request for the target size when the surface is
/// not already at it, nothing otherwise.
pub open spec fn decide_resize_spec(
    g: SurfaceGeometry,
    measured_w: u32,
    measured_h: u32,
    current_w: u32,
    current_h: u32,
) -> Option<(u32, u32)> {
    let target = target_size_spec(g, measured_w, measured_h);
    if target.0 == current_w && target.1 == current_h {
        None
    } else {
        Some(target)
    }
}

/// Decide whether to resize the surface after a render pass.
///
/// `(measured_w, measured_h)` is the content measurement rounded to whole
/// pixels; `(current_w, current_h)` is the surface's current live size. The
/// result is `Some(target)` exactly when the surface must change size.
pub fn decide_resize(
    g: &SurfaceGeometry,
    measured_w: u32,
    measured_h: u32,
    current_w: u32,
    current_h: u32,
) -> (r: Option<(u32, u32)>)
    ensures
        r == decide_resize_spec(*g, measured_w, measured_h, current_w, current_h),
{
    let target_w: u32 = match g.width {
        Some(w) => w,
        None => measured_w,
    };
    let target_h: u32 = match g.height {
        Some(h) => h,
        None => measured_h,
    };
    if target_w == current_w && target_h == current_h {
        None
    } else {
        Some((target_w, target_h))
    }
}

/// Resizing is idempotent: whatever one call decides, once the surface is at
/// the decided size an unchanged measurement decides nothing more. In
/// particular at most one request is issued per actual size change.
pub proof fn lemma_resize_idempotent(
    g: SurfaceGeometry,
    measured_w: u32,
    measured_h: u32,
    current_w: u32,
    current_h: u32,
)
    ensures
        match decide_resize_spec(g, measured_w, measured_h, current_w, current_h) {
            Some(target) => decide_resize_spec(
                g,
                measured_w,
                measured_h,
                target.0,
                target.1,
            ) is None,
            None => decide_resize_spec(g, measured_w, measured_h, current_w, current_h) is None,
        },
{
}

/// A pinned axis (`Screen` or `Fixed`) is never moved off its pinned value by
/// a measurement: any request that is issued keeps it there.
pub proof fn lemma_pinned_axis_kept(
    g: SurfaceGeometry,
    measured_w: u32,
    measured_h: u32,
    current_w: u32,
    current_h: u32,
)
    ensures
        g.width matches Some(w) ==> (decide_resize_spec(
            g,
            measured_w,
            measured_h,
            current_w,
            current_h,
        ) matches Some(target) ==> target.0 == w),
        g.height matches Some(h) ==> (decide_resize_spec(
            g,
            measured_w,
            measured_h,
            current_w,
            current_h,
        ) matches Some(target) ==> target.1 == h),
{
}

/// A content-governed geometry follows the measurement exactly: with both
/// axes `Fit`, the surface is asked for precisely the measured size whenever
/// it is not already there, and is left alone once it is.
pub proof fn lemma_fit_axes_follow_content(
    g: SurfaceGeometry,
    measured_w: u32,
    measured_h: u32,
    current_w: u32,
    current_h: u32,
)
    requires
        g.width is None,
        g.height is None,
    ensures
        (measured_w, measured_h) != (current_w, current_h) ==> decide_resize_spec(
            g,
            measured_w,
            measured_h,
            current_w,
            current_h,
        ) == Some((measured_w, measured_h)),
        (measured_w, measured_h) == (current_w, current_h) ==> decide_resize_spec(
            g,
            measured_w,
            measured_h,
            current_w,
            current_h,
        ) is None,
{
}

/// With both axes pinned and the surface at its pinned size, no resize
/// request is ever issued, regardless of what the content measures.
pub proof fn lemma_pinned_geometry_never_resizes(
    g: SurfaceGeometry,
    measured_w: u32,
    measured_h: u32,
)
    requires
        g.width is Some,
        g.height is Some,
    ensures
        decide_resize_spec(g, measured_w, measured_h, g.width->0, g.height->0) is None,
{
}

} // verus!
