//! Where a pixel of the framebuffer goes in a window that shows every pixel
//! as a square of `pixel_size` points.

use vstd::prelude::*;

use crate::screen::{SCREEN_HEIGHT, SCREEN_WIDTH};

verus! {

/// The largest pixel size at which every corner of the screen still has
/// sixteen-bit signed coordinates.
pub const MAX_PIXEL_SIZE: u32 = 511;

/// The square that shows one pixel: its left, top, right and bottom edge.
#[derive(Clone, Copy, Debug, PartialEq, Eq, Structural)]
pub struct PixelBox {
    pub x1: i16,
    pub y1: i16,
    pub x2: i16,
    pub y2: i16,
}

/// Width and height in points of the window that shows the whole screen, if
/// the pixel size is one the renderer's coordinates can hold.
pub fn window_size(pixel_size: u32) -> (size: Option<(u32, u32)>)
    ensures
        pixel_size <= MAX_PIXEL_SIZE ==> (size matches Some(s) && s.0 == SCREEN_WIDTH * pixel_size
            && s.1 == SCREEN_HEIGHT * pixel_size),
        pixel_size > MAX_PIXEL_SIZE ==> size is None,
{
    if pixel_size > MAX_PIXEL_SIZE {
        return None;
    }
    Some((SCREEN_WIDTH as u32 * pixel_size, SCREEN_HEIGHT as u32 * pixel_size))
}

/// The square that shows the pixel `(x, y)`, if the pixel size is one the
/// renderer's coordinates can hold.
pub fn pixel_box(x: usize, y: usize, pixel_size: u32) -> (square: Option<PixelBox>)
    requires
        x < SCREEN_WIDTH,
        y < SCREEN_HEIGHT,
    ensures
        pixel_size <= MAX_PIXEL_SIZE ==> (square matches Some(b) && b.x1 == x * pixel_size && b.y1
            == y * pixel_size && b.x2 == (x + 1) * pixel_size && b.y2 == (y + 1) * pixel_size),
        pixel_size > MAX_PIXEL_SIZE ==> square is None,
{
    if pixel_size > MAX_PIXEL_SIZE {
        return None;
    }
    assert((x + 1) * pixel_size <= 64 * 511 && (y + 1) * pixel_size <= 32 * 511
        && (x + 1) * pixel_size == x * pixel_size + pixel_size && (y + 1) * pixel_size == y
        * pixel_size + pixel_size && 0 <= x * pixel_size && 0 <= y * pixel_size)
        by (nonlinear_arith)
        requires
            x < 64,
            y < 32,
            pixel_size <= 511,
    ;
    let left: u32 = x as u32 * pixel_size;
    let top: u32 = y as u32 * pixel_size;
    Some(
        PixelBox {
            x1: left as i16,
            y1: top as i16,
            x2: (left + pixel_size) as i16,
            y2: (top + pixel_size) as i16,
        },
    )
}

} // verus!
