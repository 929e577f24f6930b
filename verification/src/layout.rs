//! Where the program's two windows go when it starts.

use vstd::prelude::*;
use crate::geometry::{lemma_lens_size_monotonic, spec_lens_size, Point, VirtualScreen};

verus! {

/// A window's place: its top-left corner and its size.
#[derive(Clone, Copy, Debug, PartialEq, Eq, Structural)]
pub struct Placement {
    pub x: i32,
    pub y: i32,
    pub width: i32,
    pub height: i32,
}

/// A rectangle with rounded corners, in window coordinates: its bounds, and
/// the width and height of the ellipse that rounds its corners.
#[derive(Clone, Copy, Debug, PartialEq, Eq, Structural)]
pub struct RoundRegion {
    pub left: i32,
    pub top: i32,
    pub right: i32,
    pub bottom: i32,
    pub ellipse_width: i32,
    pub ellipse_height: i32,
}

/// The windows of the program.
#[derive(Clone, Copy, Debug, PartialEq, Eq, Structural)]
pub struct WindowLayout {
    /// The transparent overlay that the lens is drawn on.
    pub overlay: Placement,
    /// The window under the lens that takes the mouse.
    pub input: Placement,
    /// The part of the input window that takes the mouse: the lens's capsule.
    pub input_region: RoundRegion,
}

/// The capsule-shaped region of a lens window of size `size`: the window's
/// whole rectangle, its corners rounded with the lens's height. The region's
/// right and bottom edges lie one pixel out because they are not part of it.
pub open spec fn spec_input_region(size: Point) -> RoundRegion {
    RoundRegion {
        left: 0,
        top: 0,
        right: (size.x + 1) as i32,
        bottom: (size.y + 1) as i32,
        ellipse_width: size.y,
        ellipse_height: size.y,
    }
}

pub open spec fn spec_window_layout(screen: VirtualScreen, lens: Point, size: Point) -> WindowLayout {
    WindowLayout {
        overlay: Placement {
            x: screen.left,
            y: screen.top,
            width: screen.width,
            height: screen.height,
        },
        input: Placement { x: lens.x, y: lens.y, width: size.x, height: size.y },
        input_region: spec_input_region(size),
    }
}

/// The capsule region of a lens window of size `size`.
pub fn input_region(size: Point) -> (r: RoundRegion)
    requires
        size.x < i32::MAX,
        size.y < i32::MAX,
    ensures
        r == spec_input_region(size),
{
    RoundRegion {
        left: 0,
        top: 0,
        right: size.x + 1,
        bottom: size.y + 1,
        ellipse_width: size.y,
        ellipse_height: size.y,
    }
}

/// Lays out the windows: the overlay covers the whole virtual desktop, and the
/// input window covers the lens at `lens`, of size `size` in physical pixels,
/// taking the mouse only inside the capsule.
pub fn window_layout(screen: VirtualScreen, lens: Point, size: Point) -> (l: WindowLayout)
    requires
        size.x < i32::MAX,
        size.y < i32::MAX,
    ensures
        l == spec_window_layout(screen, lens, size),
{
    WindowLayout {
        overlay: Placement {
            x: screen.left,
            y: screen.top,
            width: screen.width,
            height: screen.height,
        },
        input: Placement { x: lens.x, y: lens.y, width: size.x, height: size.y },
        input_region: input_region(size),
    }
}

/// The input region is the lens's capsule: it spans the whole input window,
/// and its corners are rounded with the window's full height, so that its ends
/// are half circles; at every DPI that a monitor can have, the lens window is
/// the lens at that DPI and at least as wide as it is high.
pub proof fn lemma_input_region_is_capsule(screen: VirtualScreen, lens: Point, dpi: u32)
    requires
        dpi <= 100_000,
    ensures
        ({
            let size = spec_lens_size(dpi);
            let l = spec_window_layout(screen, lens, size);
            &&& l.input.width == size.x && l.input.height == size.y
            &&& l.input_region.right - l.input_region.left == l.input.width + 1
            &&& l.input_region.bottom - l.input_region.top == l.input.height + 1
            &&& l.input_region.ellipse_width == l.input.height
            &&& l.input_region.ellipse_height == l.input.height
            &&& l.input.width >= l.input.height
        }),
{
    lemma_lens_size_monotonic(dpi, dpi);
}

/// The overlay covers exactly the virtual desktop, and the input window
/// exactly the lens: its corner at the lens position, its size the lens size.
pub proof fn lemma_windows_cover_desktop_and_lens(screen: VirtualScreen, lens: Point, size: Point)
    ensures
        ({
            let l = spec_window_layout(screen, lens, size);
            &&& l.overlay.x == screen.left && l.overlay.y == screen.top
            &&& l.overlay.width == screen.width && l.overlay.height == screen.height
            &&& l.input.x == lens.x && l.input.y == lens.y
            &&& l.input.width == size.x && l.input.height == size.y
            &&& l.input_region.left == 0 && l.input_region.top == 0
        }),
{
}

} // verus!
