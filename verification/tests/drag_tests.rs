use liquid_glass::drag::{
    drag_arithmetic_fits, drag_target, DragState, InputAction, InputEvent, Key, Pending,
    LENS_START_X, LENS_START_Y,
};
use liquid_glass::geometry::{lens_size, Point, VirtualScreen, LENS_H, LENS_W};

fn p(x: i32, y: i32) -> Point {
    Point { x, y }
}

const BASE: Point = Point { x: LENS_W, y: LENS_H };

const SCREEN: VirtualScreen = VirtualScreen { left: -1920, top: 0, width: 3840, height: 1080 };

/// Runs a full mouse move through the machine and returns its final action.
fn move_to(s: &mut DragState, cursor: Option<Point>, screen: VirtualScreen) -> InputAction {
    let a = s.step(InputEvent::MouseMove);
    if a != InputAction::ReadCursor {
        return a;
    }
    let a = s.step(InputEvent::CursorRead(cursor));
    if a != InputAction::ReadScreen {
        return a;
    }
    s.step(InputEvent::ScreenRead(screen))
}

fn press_at(s: &mut DragState, cursor: Option<Point>) {
    assert_eq!(s.step(InputEvent::ButtonDown), InputAction::CaptureAndReadCursor);
    assert_eq!(s.step(InputEvent::CursorRead(cursor)), InputAction::Reply);
}

#[test]
fn starts_idle_at_start_position() {
    let s = DragState::new(Some(96));
    assert!(!s.dragging);
    assert_eq!(s.pending, Pending::Nothing);
    assert_eq!(s.lens, p(LENS_START_X, LENS_START_Y));
    assert_eq!(s.lens, p(420, 240));
}

#[test]
fn target_follows_cursor_inside_screen() {
    let t = drag_target(p(420, 240), p(500, 300), p(530, 290), SCREEN, BASE);
    assert_eq!(t, p(450, 230));
}

#[test]
fn target_is_clamped_to_screen() {
    // Far right and below: the lens ends at the desktop's right and bottom edges.
    let t = drag_target(p(420, 240), p(500, 300), p(5000, 5000), SCREEN, BASE);
    assert_eq!(t, p(1920 - LENS_W, 1080 - LENS_H));
    // Far left and above: the lens starts at the desktop's left and top edges.
    let t = drag_target(p(420, 240), p(500, 300), p(-9000, -9000), SCREEN, BASE);
    assert_eq!(t, p(-1920, 0));
}

#[test]
fn target_on_screen_smaller_than_lens() {
    let small = VirtualScreen { left: 10, top: 20, width: 300, height: 200 };
    let t = drag_target(p(0, 0), p(0, 0), p(100, 100), small, BASE);
    assert_eq!(t, p(10, 20));
}

#[test]
fn still_cursor_keeps_lens() {
    let t = drag_target(p(100, 100), p(640, 480), p(640, 480), SCREEN, BASE);
    assert_eq!(t, p(100, 100));
}

#[test]
fn arithmetic_fits_checks_overflow() {
    assert!(drag_arithmetic_fits(p(0, 0), p(0, 0), p(10, 10), SCREEN, BASE));
    assert!(!drag_arithmetic_fits(p(i32::MAX, 0), p(0, 0), p(1, 0), SCREEN, BASE));
    assert!(!drag_arithmetic_fits(p(0, i32::MIN), p(1, 1), p(0, 0), SCREEN, BASE));
    let wide = VirtualScreen { left: i32::MAX - 10, top: 0, width: 100, height: 1080 };
    assert!(!drag_arithmetic_fits(p(0, 0), p(0, 0), p(0, 0), wide, BASE));
    let low = VirtualScreen { left: i32::MIN, top: 0, width: 0, height: 1080 };
    assert!(!drag_arithmetic_fits(p(0, 0), p(0, 0), p(0, 0), low, BASE));
}

#[test]
fn drag_moves_window_and_release_ends_drag() {
    let mut s = DragState::new(Some(96));
    press_at(&mut s, Some(p(500, 300)));
    assert!(s.dragging);
    assert_eq!(s.drag_cursor, p(500, 300));
    assert_eq!(s.drag_lens, p(420, 240));
    assert_eq!(move_to(&mut s, Some(p(530, 290)), SCREEN), InputAction::MoveWindow(p(450, 230)));
    assert_eq!(s.lens, p(450, 230));
    // The motion is measured from where the drag started, not from the last move.
    assert_eq!(move_to(&mut s, Some(p(540, 300)), SCREEN), InputAction::MoveWindow(p(460, 240)));
    assert_eq!(s.step(InputEvent::ButtonUp), InputAction::ReleaseMouse);
    assert!(!s.dragging);
    assert_eq!(move_to(&mut s, Some(p(900, 900)), SCREEN), InputAction::PassToDefault);
    assert_eq!(s.lens, p(460, 240));
}

#[test]
fn move_to_same_position_only_replies() {
    let mut s = DragState::new(Some(96));
    press_at(&mut s, Some(p(500, 300)));
    assert_eq!(move_to(&mut s, Some(p(500, 300)), SCREEN), InputAction::Reply);
    assert_eq!(s.lens, p(420, 240));
    assert_eq!(s.pending, Pending::Nothing);
}

#[test]
fn unreadable_cursor_skips_the_move() {
    let mut s = DragState::new(Some(96));
    press_at(&mut s, Some(p(500, 300)));
    assert_eq!(move_to(&mut s, None, SCREEN), InputAction::Reply);
    assert_eq!(s.lens, p(420, 240));
    assert_eq!(s.pending, Pending::Nothing);
}

#[test]
fn unreadable_start_cursor_keeps_old_one() {
    let mut s = DragState::new(Some(96));
    press_at(&mut s, Some(p(10, 20)));
    s.step(InputEvent::ButtonUp);
    press_at(&mut s, None);
    assert_eq!(s.drag_cursor, p(10, 20));
    assert!(s.dragging);
}

#[test]
fn drag_is_kept_on_screen() {
    let mut s = DragState::new(Some(96));
    press_at(&mut s, Some(p(0, 0)));
    assert_eq!(
        move_to(&mut s, Some(p(100000, -100000)), SCREEN),
        InputAction::MoveWindow(p(1920 - LENS_W, 0))
    );
}

#[test]
fn keys_and_other_messages() {
    let mut s = DragState::new(Some(96));
    assert_eq!(s.step(InputEvent::KeyDown(Key::Escape)), InputAction::DestroyWindow);
    assert_eq!(s.step(InputEvent::KeyDown(Key::Other)), InputAction::PassToDefault);
    assert_eq!(s.step(InputEvent::Destroy), InputAction::Reply);
    assert_eq!(s.step(InputEvent::Other), InputAction::PassToDefault);
    assert_eq!(s, DragState::new(Some(96)));
}

#[test]
fn machine_takes_only_expected_events() {
    let mut s = DragState::new(Some(96));
    assert!(s.can_take(InputEvent::ButtonDown));
    assert!(s.can_take(InputEvent::Other));
    assert!(!s.can_take(InputEvent::CursorRead(None)));
    assert!(!s.can_take(InputEvent::ScreenRead(SCREEN)));
    s.step(InputEvent::ButtonDown);
    assert!(s.can_take(InputEvent::CursorRead(Some(p(1, 1)))));
    assert!(!s.can_take(InputEvent::MouseMove));
    s.step(InputEvent::CursorRead(Some(p(0, 0))));
    s.step(InputEvent::MouseMove);
    s.step(InputEvent::CursorRead(Some(p(5, 5))));
    assert_eq!(s.pending, Pending::MoveScreen(p(5, 5)));
    assert!(s.can_take(InputEvent::ScreenRead(SCREEN)));
    let huge = VirtualScreen { left: i32::MAX, top: 0, width: 1, height: 1080 };
    assert!(!s.can_take(InputEvent::ScreenRead(huge)));
    assert!(!s.can_take(InputEvent::ButtonUp));
}

#[test]
fn new_state_defaults() {
    let s = DragState::new(None);
    assert_eq!(s.dpi, 96);
    assert_eq!(s.drag_cursor, p(0, 0));
    assert_eq!(s.drag_lens, p(0, 0));
    assert_eq!(DragState::new(Some(144)).dpi, 144);
}

#[test]
fn lens_size_follows_dpi() {
    assert_eq!(lens_size(96), p(420, 280));
    assert_eq!(lens_size(144), p(630, 420));
    assert_eq!(lens_size(120), p(525, 350));
    assert_eq!(DragState::new(Some(144)).size(), p(630, 420));
    // Rounding to the nearest pixel: 420 * 97 / 96 = 424.375, 280 * 97 / 96 = 282.916...
    assert_eq!(lens_size(97), p(424, 283));
}

#[test]
fn drag_limits_use_scaled_size() {
    let mut s = DragState::new(Some(144));
    press_at(&mut s, Some(p(0, 0)));
    assert_eq!(
        move_to(&mut s, Some(p(100000, 100000)), SCREEN),
        InputAction::MoveWindow(p(1920 - 630, 1080 - 420))
    );
}

#[test]
fn dpi_change_resizes_around_centre() {
    let mut s = DragState::new(Some(96));
    assert_eq!(
        s.step(InputEvent::DpiChanged(144)),
        InputAction::ResizeWindow { position: p(420 - 105, 240 - 70), size: p(630, 420) }
    );
    assert_eq!(s.dpi, 144);
    assert_eq!(s.lens, p(315, 170));
    // Back to 96 DPI: the lens returns where it was.
    assert_eq!(
        s.step(InputEvent::DpiChanged(96)),
        InputAction::ResizeWindow { position: p(420, 240), size: p(420, 280) }
    );
    // An unknown or unchanged DPI changes nothing.
    assert_eq!(s.step(InputEvent::DpiChanged(0)), InputAction::Reply);
    assert_eq!(s.step(InputEvent::DpiChanged(96)), InputAction::Reply);
    assert_eq!(s.lens, p(420, 240));
}

#[test]
fn dpi_change_rounds_half_toward_zero() {
    // 96 -> 97 DPI: the size grows by (4, 3); the lens moves by (-2, -1).
    let mut s = DragState::new(Some(96));
    assert_eq!(
        s.step(InputEvent::DpiChanged(97)),
        InputAction::ResizeWindow { position: p(418, 239), size: p(424, 283) }
    );
}

#[test]
fn lens_depends_only_on_last_cursor() {
    let mut s = DragState::new(Some(96));
    press_at(&mut s, Some(p(500, 300)));
    // Intermediate moves, one far outside the desktop, leave no trace.
    move_to(&mut s, Some(p(-50000, 9000)), SCREEN);
    move_to(&mut s, Some(p(700, 100)), SCREEN);
    move_to(&mut s, Some(p(510, 320)), SCREEN);
    assert_eq!(s.lens, p(430, 260));
    move_to(&mut s, Some(p(500, 300)), SCREEN);
    assert_eq!(s.lens, p(420, 240));
}

#[test]
fn dpi_change_checked_for_overflow() {
    let mut s = DragState::new(Some(96));
    assert!(s.can_take(InputEvent::DpiChanged(144)));
    s.lens = p(i32::MIN, 0);
    assert!(!s.can_take(InputEvent::DpiChanged(144)));
    assert!(s.can_take(InputEvent::DpiChanged(96)));
}

#[test]
fn dpi_change_during_drag_restarts_drag() {
    let mut s = DragState::new(Some(96));
    press_at(&mut s, Some(p(500, 300)));
    assert_eq!(move_to(&mut s, Some(p(510, 310)), SCREEN), InputAction::MoveWindow(p(430, 250)));
    assert_eq!(
        s.step(InputEvent::DpiChanged(144)),
        InputAction::ResizeAndReadCursor { position: p(325, 180), size: p(630, 420) }
    );
    assert_eq!(s.pending, Pending::DragStartCursor);
    assert_eq!(s.step(InputEvent::CursorRead(Some(p(510, 310)))), InputAction::Reply);
    assert_eq!(s.drag_lens, p(325, 180));
    assert_eq!(s.drag_cursor, p(510, 310));
    // The cursor has not moved: the lens does not jump back.
    assert_eq!(move_to(&mut s, Some(p(510, 310)), SCREEN), InputAction::Reply);
    assert_eq!(s.lens, p(325, 180));
    assert_eq!(move_to(&mut s, Some(p(520, 310)), SCREEN), InputAction::MoveWindow(p(335, 180)));
}

#[test]
fn dpi_change_during_drag_with_unreadable_cursor() {
    let mut s = DragState::new(Some(96));
    press_at(&mut s, Some(p(500, 300)));
    s.step(InputEvent::DpiChanged(144));
    assert_eq!(s.step(InputEvent::CursorRead(None)), InputAction::Reply);
    assert_eq!(s.drag_cursor, p(500, 300));
    assert_eq!(s.drag_lens, p(315, 170));
    assert!(s.dragging);
}

#[test]
fn after_release_moves_change_nothing() {
    let mut s = DragState::new(Some(96));
    press_at(&mut s, Some(p(500, 300)));
    move_to(&mut s, Some(p(600, 400)), SCREEN);
    assert_eq!(s.step(InputEvent::ButtonUp), InputAction::ReleaseMouse);
    let after = s;
    for event in [InputEvent::MouseMove, InputEvent::Other, InputEvent::KeyDown(Key::Other), InputEvent::ButtonUp, InputEvent::MouseMove] {
        s.step(event);
        assert_eq!(s, after);
    }
    assert_eq!(s.lens, p(520, 340));
}
