//! The layout engine: given the viewport's dimensions and the nominal
//! footprint of the rendered clock, compute a centered sub-region to
//! draw into. Padding saturates to zero when the viewport is smaller
//! than the footprint; the region never extends outside the viewport.

use vstd::prelude::*;

verus! {

/// Nominal height, in terminal rows, of the rendered clock (a fixed
/// estimate, not measured from the actual glyph block).
pub const CLOCK_HEIGHT: u16 = 10;

/// Nominal width, in terminal columns, of the rendered clock.
pub const CLOCK_WIDTH: u16 = 60;

/// The terminal's drawable area, in character cells. Read anew each
/// tick: the terminal may be resized between ticks.
#[derive(Clone, Copy, PartialEq, Eq, Structural, Debug)]
pub struct Viewport {
    pub width: u16,
    pub height: u16,
}

/// A rectangular sub-area of a viewport, `x`/`y` being the offset of
/// its top-left corner from the viewport's.
#[derive(Clone, Copy, PartialEq, Eq, Structural, Debug)]
pub struct LayoutRegion {
    pub x: u16,
    pub y: u16,
    pub width: u16,
    pub height: u16,
}

/// Centering padding on one axis: half the slack between the viewport
/// extent and the nominal extent, zero when there is no slack.
pub open spec fn pad(extent: int, nominal: int) -> int {
    if extent > nominal {
        (extent - nominal) / 2
    } else {
        0
    }
}

/// The centered region: padding on each side of each axis, the region
/// taking all that the padding leaves.
pub open spec fn region_spec(vp: Viewport, nominal_width: u16, nominal_height: u16) -> LayoutRegion {
    LayoutRegion {
        x: pad(vp.width as int, nominal_width as int) as u16,
        y: pad(vp.height as int, nominal_height as int) as u16,
        width: (vp.width - 2 * pad(vp.width as int, nominal_width as int)) as u16,
        height: (vp.height - 2 * pad(vp.height as int, nominal_height as int)) as u16,
    }
}

/// Compute the centered layout region for this tick's viewport.
pub fn compute_region(vp: Viewport, nominal_width: u16, nominal_height: u16) -> (r: LayoutRegion)
    ensures
        r == region_spec(vp, nominal_width, nominal_height),
{
    let hpad: u16 = if vp.width > nominal_width {
        (vp.width - nominal_width) / 2
    } else {
        0
    };
    let vpad: u16 = if vp.height > nominal_height {
        (vp.height - nominal_height) / 2
    } else {
        0
    };
    LayoutRegion { x: hpad, y: vpad, width: vp.width - 2 * hpad, height: vp.height - 2 * vpad }
}

/// Law: padding is never negative, and the computed region lies within
/// the viewport on both axes, for every viewport and footprint.
pub proof fn lemma_region_within_viewport(vp: Viewport, nominal_width: u16, nominal_height: u16)
    ensures
        0 <= pad(vp.width as int, nominal_width as int),
        0 <= pad(vp.height as int, nominal_height as int),
        region_spec(vp, nominal_width, nominal_height).x + region_spec(
            vp,
            nominal_width,
            nominal_height,
        ).width <= vp.width,
        region_spec(vp, nominal_width, nominal_height).y + region_spec(
            vp,
            nominal_width,
            nominal_height,
        ).height <= vp.height,
{
}

/// Law: on an axis where the viewport is smaller than the nominal
/// footprint, the padding is exactly zero.
pub proof fn lemma_small_viewport_zero_padding(vp: Viewport, nominal_width: u16, nominal_height: u16)
    ensures
        vp.width < nominal_width ==> region_spec(vp, nominal_width, nominal_height).x == 0,
        vp.height < nominal_height ==> region_spec(vp, nominal_width, nominal_height).y == 0,
{
}

/// Law: the layout engine has no hidden state. Any two results obtained
/// from identical inputs are identical.
pub proof fn lemma_layout_deterministic(
    vp: Viewport,
    nominal_width: u16,
    nominal_height: u16,
    r1: LayoutRegion,
    r2: LayoutRegion,
)
    requires
        r1 == region_spec(vp, nominal_width, nominal_height),
        r2 == region_spec(vp, nominal_width, nominal_height),
    ensures
        r1 == r2,
{
}

} // verus!
