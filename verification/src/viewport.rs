//! Picture-in-picture viewport arithmetic.
//!
//! A secondary camera renders into a sub-rectangle of the display surface,
//! computed every frame from a fractional size (in thousandths) and an anchor
//! corner. A fraction with a zero component, or one whose rounded size
//! exceeds the surface, is a configuration error.

use vstd::prelude::*;

verus! {

/// Fractional sizes are expressed in thousandths of the surface size.
pub const FRACTION_DENOM: u32 = 1000;

/// The corner of the surface the viewport is pinned to.
#[derive(Clone, Copy, PartialEq, Eq, Structural, Debug)]
pub enum Anchor {
    TopLeft,
    BottomRight,
}

/// A secondary camera's viewport configuration: an anchor corner and a
/// fractional size in thousandths of the surface size, both components
/// positive.
#[derive(Clone, Copy, PartialEq, Eq, Structural, Debug)]
pub struct ViewportCamera {
    pub anchor: Anchor,
    /// Width fraction in thousandths (300 means 30% of the surface width).
    pub fraction_x: u32,
    /// Height fraction in thousandths.
    pub fraction_y: u32,
}

/// A viewport rectangle in physical pixels: position of its top-left corner
/// and its size.
#[derive(Clone, Copy, PartialEq, Eq, Structural, Debug)]
pub struct ViewportRect {
    pub x: u32,
    pub y: u32,
    pub width: u32,
    pub height: u32,
}

/// A configuration error: such a viewport is meaningless and the feature
/// must halt clearly rather than silently clamp.
#[derive(Clone, Copy, PartialEq, Eq, Structural, Debug)]
pub enum ViewportError {
    /// A fractional size component is zero.
    ZeroFraction,
    /// The rounded viewport size exceeds the surface.
    Oversized,
}

/// `surface * fraction / 1000`, rounded half up.
pub open spec fn scaled_len(surface: u32, fraction: u32) -> int {
    (surface * fraction + FRACTION_DENOM / 2) / (FRACTION_DENOM as int)
}

/// `rect` is the viewport a valid configuration yields: the rounded
/// fractional size, pinned to the configured corner.
pub open spec fn viewport_rect_for(
    camera: ViewportCamera,
    surface_width: u32,
    surface_height: u32,
    rect: ViewportRect,
) -> bool {
    &&& rect.width == scaled_len(surface_width, camera.fraction_x)
    &&& rect.height == scaled_len(surface_height, camera.fraction_y)
    &&& match camera.anchor {
        Anchor::TopLeft => rect.x == 0 && rect.y == 0,
        Anchor::BottomRight => rect.x == surface_width - rect.width && rect.y == surface_height
            - rect.height,
    }
}

/// Computes the viewport rectangle for the current surface resolution.
/// Recomputed every frame, since the surface may be resized at any time.
pub fn compute_viewport(
    camera: &ViewportCamera,
    surface_width: u32,
    surface_height: u32,
) -> (r: Result<ViewportRect, ViewportError>)
    ensures
        camera.fraction_x == 0 || camera.fraction_y == 0 ==> (r matches Err(e) && e
            == ViewportError::ZeroFraction),
        camera.fraction_x > 0 && camera.fraction_y > 0 && (scaled_len(
            surface_width,
            camera.fraction_x,
        ) > surface_width || scaled_len(surface_height, camera.fraction_y) > surface_height) ==> (
        r matches Err(e) && e == ViewportError::Oversized),
        camera.fraction_x > 0 && camera.fraction_y > 0 && scaled_len(
            surface_width,
            camera.fraction_x,
        ) <= surface_width && scaled_len(surface_height, camera.fraction_y) <= surface_height ==> (
        r matches Ok(rect) && viewport_rect_for(*camera, surface_width, surface_height, rect)),
{
    if camera.fraction_x == 0 || camera.fraction_y == 0 {
        return Err(ViewportError::ZeroFraction);
    }
    proof {
        assert((surface_width as int) * (camera.fraction_x as int) + 500 < 0x1_0000_0000_0000_0000
            && (surface_height as int) * (camera.fraction_y as int) + 500
            < 0x1_0000_0000_0000_0000) by (nonlinear_arith)
            requires
                surface_width <= 0xffff_ffffu32,
                surface_height <= 0xffff_ffffu32,
                camera.fraction_x <= 0xffff_ffffu32,
                camera.fraction_y <= 0xffff_ffffu32,
        ;
    }
    let half_denom = (FRACTION_DENOM / 2) as u64;
    let width64 = ((surface_width as u64) * (camera.fraction_x as u64) + half_denom) / (
    FRACTION_DENOM as u64);
    let height64 = ((surface_height as u64) * (camera.fraction_y as u64) + half_denom) / (
    FRACTION_DENOM as u64);
    if width64 > surface_width as u64 || height64 > surface_height as u64 {
        return Err(ViewportError::Oversized);
    }
    let width = width64 as u32;
    let height = height64 as u32;
    let (x, y) = match camera.anchor {
        Anchor::TopLeft => (0u32, 0u32),
        Anchor::BottomRight => (surface_width - width, surface_height - height),
    };
    Ok(ViewportRect { x, y, width, height })
}

} // verus!
