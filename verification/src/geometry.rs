//! Geometry resolution: turning a per-axis size policy and a monitor's
//! physical dimensions into the bar's initial window geometry, and choosing
//! the display the bar appears on.

use vstd::prelude::*;

verus! {

/// Per-axis size policy for the bar window.
#[derive(Clone, Copy, Debug, PartialEq, Eq, Structural)]
pub enum Size {
    /// Fill the whole width/height of the screen.
    Screen,
    /// Fit the width/height to the measured content.
    Fit,
    /// A fixed width/height in pixels.
    Fixed(u32),
}

/// The resolved window geometry. `None` on an axis means the axis is governed
/// by `Size::Fit` and is determined later from measured content.
#[derive(Clone, Copy, Debug, PartialEq, Eq, Structural)]
pub struct SurfaceGeometry {
    pub width: Option<u32>,
    pub height: Option<u32>,
}

/// Failure to resolve the target display at startup.
#[derive(Clone, Copy, Debug, PartialEq, Eq, Structural)]
pub enum GeometryError {
    DisplayNotFound,
}

/// Which display the bar is placed on.
#[derive(Clone, Copy, Debug, PartialEq, Eq, Structural)]
pub enum DisplayChoice {
    /// No explicit index was configured: use the primary display.
    Primary,
    /// An explicitly configured display index.
    Indexed(usize),
}

/// What one axis of the initial geometry resolves to: the monitor dimension
/// for `Screen`, nothing (content-governed) for `Fit`, the pixel value for
/// `Fixed`.
pub open spec fn resolved_axis_spec(policy: Size, monitor_dim: u32) -> Option<u32> {
    match policy {
        Size::Screen => Some(monitor_dim),
        Size::Fit => None,
        Size::Fixed(pixels) => Some(pixels),
    }
}

/// Resolve one axis of the window geometry from its policy and the monitor's
/// dimension on that axis.
pub fn resolve_axis(policy: Size, monitor_dim: u32) -> (r: Option<u32>)
    ensures
        r == resolved_axis_spec(policy, monitor_dim),
{
    match policy {
        Size::Screen => Some(monitor_dim),
        Size::Fit => None,
        Size::Fixed(pixels) => Some(pixels),
    }
}

/// Resolve both axes of the window geometry.
pub fn resolve_geometry(width: Size, height: Size, monitor_w: u32, monitor_h: u32) -> (g:
    SurfaceGeometry)
    ensures
        g.width == resolved_axis_spec(width, monitor_w),
        g.height == resolved_axis_spec(height, monitor_h),
{
    SurfaceGeometry { width: resolve_axis(width, monitor_w), height: resolve_axis(height, monitor_h) }
}

/// The initial window size: a `Fit` axis starts at the monitor's dimension
/// until content has been measured.
pub fn initial_window_size(g: &SurfaceGeometry, monitor_w: u32, monitor_h: u32) -> (r: (u32, u32))
    ensures
        r.0 == if g.width is Some { g.width->0 } else { monitor_w },
        r.1 == if g.height is Some { g.height->0 } else { monitor_h },
{
    let w: u32 = match g.width {
        Some(w) => w,
        None => monitor_w,
    };
    let h: u32 = match g.height {
        Some(h) => h,
        None => monitor_h,
    };
    (w, h)
}

/// Choose the target display. With no configured index the primary display is
/// used if the windowing system reports one; an out-of-range configured index
/// is a fatal configuration error, never a silent fallback.
pub fn select_display(screen: Option<usize>, display_count: usize, has_primary: bool) -> (r: Result<
    DisplayChoice,
    GeometryError,
>)
    ensures
        screen is None && has_primary ==> r == Ok::<_, GeometryError>(DisplayChoice::Primary),
        screen is None && !has_primary ==> r == Err::<DisplayChoice, _>(
            GeometryError::DisplayNotFound,
        ),
        (screen matches Some(i) && i < display_count) ==> r == Ok::<_, GeometryError>(
            DisplayChoice::Indexed(screen->0),
        ),
        (screen matches Some(i) && i >= display_count) ==> r == Err::<DisplayChoice, _>(
            GeometryError::DisplayNotFound,
        ),
{
    match screen {
        None => {
            if has_primary {
                Ok(DisplayChoice::Primary)
            } else {
                Err(GeometryError::DisplayNotFound)
            }
        },
        Some(i) => {
            if i < display_count {
                Ok(DisplayChoice::Indexed(i))
            } else {
                Err(GeometryError::DisplayNotFound)
            }
        },
    }
}

/// A resolved axis is absent exactly when that axis's policy is `Fit`: the
/// two fixed policies always pin the axis, and `Fit` never does.
pub proof fn lemma_axis_none_iff_fit(policy: Size, monitor_dim: u32)
    ensures
        resolved_axis_spec(policy, monitor_dim) is None <==> policy is Fit,
{
}

} // verus!
