use liquid_glass::geometry::{clamp_i32, max_i32, min_i32, scissor_rect, Rect, LENS_H, LENS_W};
use liquid_glass::layout::{input_region, window_layout, Placement, RoundRegion};
use liquid_glass::geometry::{Point, VirtualScreen};

fn rect(left: i32, top: i32, right: i32, bottom: i32) -> Rect {
    Rect { left, top, right, bottom }
}

#[test]
fn min_max_clamp_values() {
    assert_eq!(max_i32(-3, 2), 2);
    assert_eq!(min_i32(-3, 2), -3);
    assert_eq!(clamp_i32(5, 0, 3), 3);
    assert_eq!(clamp_i32(-5, 0, 3), 0);
    assert_eq!(clamp_i32(2, 0, 3), 2);
    assert_eq!(clamp_i32(7, 7, 7), 7);
}

#[test]
fn scissor_of_output_inside_window() {
    // Overlay over a desktop from (-1920, 0) to (1920, 1080); primary output at (0, 0).
    let window = rect(-1920, 0, 1920, 1080);
    let s = scissor_rect(rect(0, 0, 1920, 1080), window, 3840, 1080);
    assert_eq!(s, rect(1920, 0, 3840, 1080));
    let s = scissor_rect(rect(-1920, 0, 0, 1080), window, 3840, 1080);
    assert_eq!(s, rect(0, 0, 1920, 1080));
}

#[test]
fn scissor_is_cut_to_the_window() {
    // An output that reaches beyond the window on every side.
    let s = scissor_rect(rect(-100, -50, 900, 700), rect(0, 0, 800, 600), 800, 600);
    assert_eq!(s, rect(0, 0, 800, 600));
}

#[test]
fn scissor_of_output_beside_window_is_empty() {
    let s = scissor_rect(rect(1000, 0, 1500, 600), rect(0, 0, 800, 600), 800, 600);
    assert_eq!(s, rect(1000, 0, 800, 600));
    assert!(s.left >= s.right);
}

#[test]
fn scissor_pixels_are_the_intersection() {
    let output = rect(-10, 20, 50, 90);
    let window = rect(5, 5, 105, 85);
    let (w, h) = (100, 80);
    let s = scissor_rect(output, window, w, h);
    for x in -20..120 {
        for y in -20..120 {
            let in_s = s.left <= x && x < s.right && s.top <= y && y < s.bottom;
            let in_out = output.left <= x + window.left
                && x + window.left < output.right
                && output.top <= y + window.top
                && y + window.top < output.bottom;
            let in_win = 0 <= x && x < w && 0 <= y && y < h;
            assert_eq!(in_s, in_out && in_win);
        }
    }
}

#[test]
fn layout_covers_desktop_and_lens() {
    let screen = VirtualScreen { left: -1280, top: -200, width: 3200, height: 1280 };
    let l = window_layout(screen, Point { x: 420, y: 240 }, Point { x: LENS_W, y: LENS_H });
    assert_eq!(l.overlay, Placement { x: -1280, y: -200, width: 3200, height: 1280 });
    assert_eq!(l.input, Placement { x: 420, y: 240, width: LENS_W, height: LENS_H });
    assert_eq!(
        l.input_region,
        RoundRegion { left: 0, top: 0, right: 421, bottom: 281, ellipse_width: 280, ellipse_height: 280 }
    );
}

#[test]
fn layout_at_150_percent() {
    let screen = VirtualScreen { left: 0, top: 0, width: 2560, height: 1440 };
    let l = window_layout(screen, Point { x: 420, y: 240 }, Point { x: 630, y: 420 });
    assert_eq!(l.input, Placement { x: 420, y: 240, width: 630, height: 420 });
    assert_eq!(
        l.input_region,
        RoundRegion { left: 0, top: 0, right: 631, bottom: 421, ellipse_width: 420, ellipse_height: 420 }
    );
    assert_eq!(input_region(Point { x: 630, y: 420 }), l.input_region);
}
