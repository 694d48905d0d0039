//! The size of the window when it first opens.

use vstd::prelude::*;

verus! {

/// Room left around the picture, horizontally.
pub const MARGIN_WIDTH: u32 = 40;

/// Room left around the picture, vertically.
pub const MARGIN_HEIGHT: u32 = 60;

/// Widest window that is opened, whatever the picture.
pub const MAX_WIDTH: u32 = 1200;

/// Tallest window that is opened, whatever the picture.
pub const MAX_HEIGHT: u32 = 800;

/// Width of the window when the picture's size is not known.
pub const DEFAULT_WIDTH: u32 = 800;

/// Height of the window when the picture's size is not known.
pub const DEFAULT_HEIGHT: u32 = 600;

/// The smaller of two numbers.
pub open spec fn least(a: int, b: int) -> int {
    if a <= b {
        a
    } else {
        b
    }
}

/// The window size for a picture of the given dimensions: the picture plus
/// its margins, capped; the default where the dimensions are not known.
pub open spec fn window_size(dimensions: Option<(u32, u32)>) -> (int, int) {
    match dimensions {
        Some((width, height)) => (
            least(width + MARGIN_WIDTH, MAX_WIDTH as int),
            least(height + MARGIN_HEIGHT, MAX_HEIGHT as int),
        ),
        None => (DEFAULT_WIDTH as int, DEFAULT_HEIGHT as int),
    }
}

/// Computes the size of the window that is opened for a picture of the given
/// dimensions, or for one whose dimensions could not be read.
pub fn initial_window_size(dimensions: Option<(u32, u32)>) -> (size: (u32, u32))
    ensures
        (size.0 as int, size.1 as int) == window_size(dimensions),
        size.0 <= MAX_WIDTH,
        size.1 <= MAX_HEIGHT,
{
    match dimensions {
        Some((width, height)) => {
            let w: u32 = if width >= MAX_WIDTH - MARGIN_WIDTH {
                MAX_WIDTH
            } else {
                width + MARGIN_WIDTH
            };
            let h: u32 = if height >= MAX_HEIGHT - MARGIN_HEIGHT {
                MAX_HEIGHT
            } else {
                height + MARGIN_HEIGHT
            };
            (w, h)
        },
        None => (DEFAULT_WIDTH, DEFAULT_HEIGHT),
    }
}

} // verus!
