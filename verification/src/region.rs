//! Screen rectangles, and how one is derived from an overlay window.

use vstd::prelude::*;

verus! {

/// How far the overlay's navigation bar reaches down when the caller does
/// not say.
pub const DEFAULT_NAV_HEIGHT: i32 = 25;

/// The most bytes that the pixels of one capture may take.
pub const MAX_BUFFER_LEN: i32 = 0x7FFF_FFFF;

/// A rectangle in screen coordinates.
#[derive(Debug, Clone, Copy, PartialEq, Eq, Structural)]
pub struct CaptureRegion {
    pub x: i32,
    pub y: i32,
    pub width: i32,
    pub height: i32,
}

/// The rectangle behind an overlay window, as exact integers: one pixel is
/// taken off the left, the right and the bottom edge, and with a border the
/// navigation bar is taken off the top.
pub open spec fn overlay_geometry(
    x: int,
    y: int,
    width: int,
    height: int,
    border: bool,
    nav_height: int,
) -> (int, int, int, int) {
    if border {
        (x + 1, y + nav_height, width - 2, height - nav_height - 1)
    } else {
        (x + 1, y, width - 2, height - 1)
    }
}

/// Whether `v` is a value of `i32`.
pub open spec fn fits_i32(v: int) -> bool {
    i32::MIN <= v <= i32::MAX
}

/// The border setting in force: shown unless the caller says otherwise.
pub open spec fn border_or_default(border: Option<bool>) -> bool {
    match border {
        Some(shown) => shown,
        None => true,
    }
}

/// The navigation height in force.
pub open spec fn nav_height_or_default(nav_height: Option<i32>) -> int {
    match nav_height {
        Some(height) => height as int,
        None => DEFAULT_NAV_HEIGHT as int,
    }
}

impl CaptureRegion {
    /// The bytes that the pixels of this region take, four for each.
    pub open spec fn byte_len(&self) -> int {
        self.width as int * self.height as int * 4
    }

    /// A region can be captured if it is not empty and its pixels fit in one
    /// buffer.
    pub open spec fn is_capturable(&self) -> bool {
        self.width > 0 && self.height > 0 && self.byte_len() <= MAX_BUFFER_LEN
    }

    /// The length of the pixel buffer of this region, if it can be captured.
    pub fn buffer_len(&self) -> (len: Option<u32>)
        ensures
            len is Some <==> self.is_capturable(),
            len is Some ==> len->0 == self.byte_len(),
    {
        if self.width <= 0 || self.height <= 0 {
            return None;
        }
        assert(0 < self.width as int * self.height as int <= 0x7FFF_FFFF * 0x7FFF_FFFF)
            by (nonlinear_arith)
            requires
                0 < self.width <= 0x7FFF_FFFF,
                0 < self.height <= 0x7FFF_FFFF,
        ;
        let pixels: i64 = self.width as i64 * self.height as i64;
        if pixels > (MAX_BUFFER_LEN / 4) as i64 {
            None
        } else {
            Some((pixels * 4) as u32)
        }
    }
}

/// The region that covers a whole display of the given dimensions.
pub fn full_screen_region(screen_width: i32, screen_height: i32) -> (region: CaptureRegion)
    ensures
        region == (CaptureRegion { x: 0, y: 0, width: screen_width, height: screen_height }),
{
    CaptureRegion { x: 0, y: 0, width: screen_width, height: screen_height }
}

/// The region to capture behind an overlay window with the given outer
/// position and size. The border is taken as shown and the navigation bar as
/// 25 pixels high unless the caller says otherwise. The left, right and
/// bottom insets of one pixel apply with and without a border. The result is
/// `None` exactly when a coordinate of the region is no `i32`.
pub fn overlay_region(
    position_x: i32,
    position_y: i32,
    outer_width: u32,
    outer_height: u32,
    border: Option<bool>,
    nav_height: Option<i32>,
) -> (region: Option<CaptureRegion>)
    ensures
        ({
            let g = overlay_geometry(
                position_x as int,
                position_y as int,
                outer_width as int,
                outer_height as int,
                border_or_default(border),
                nav_height_or_default(nav_height),
            );
            if fits_i32(g.0) && fits_i32(g.1) && fits_i32(g.2) && fits_i32(g.3) {
                region == Some(
                    CaptureRegion {
                        x: g.0 as i32,
                        y: g.1 as i32,
                        width: g.2 as i32,
                        height: g.3 as i32,
                    },
                )
            } else {
                region is None
            }
        }),
{
    let border: bool = match border {
        Some(shown) => shown,
        None => true,
    };
    let nav_height: i64 = match nav_height {
        Some(height) => height as i64,
        None => DEFAULT_NAV_HEIGHT as i64,
    };
    let x: i64 = position_x as i64 + 1;
    let width: i64 = outer_width as i64 - 2;
    let (y, height): (i64, i64) = if border {
        (position_y as i64 + nav_height, outer_height as i64 - nav_height - 1)
    } else {
        (position_y as i64, outer_height as i64 - 1)
    };
    if in_i32(x) && in_i32(y) && in_i32(width) && in_i32(height) {
        Some(CaptureRegion { x: x as i32, y: y as i32, width: width as i32, height: height as i32 })
    } else {
        None
    }
}

/// Whether `v` is a value of `i32`.
fn in_i32(v: i64) -> (fits: bool)
    ensures
        fits == fits_i32(v as int),
{
    -0x8000_0000 <= v && v <= 0x7FFF_FFFF
}

} // verus!
