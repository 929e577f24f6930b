//! Dragging the lens: the decisions of the lens's input window, as a state
//! machine from the current drag state and an event to the next state and the
//! action that the window procedure performs.

use vstd::prelude::*;
use crate::geometry::{
    clamp_i32, fits_i32, i64_fits_i32, lens_size, max_i32, spec_clamp, spec_lens_size, spec_max,
    Point, VirtualScreen, BASE_DPI,
};

verus! {

/// Where the lens starts on the virtual desktop.
pub const LENS_START_X: i32 = 420;

/// Where the lens starts on the virtual desktop.
pub const LENS_START_Y: i32 = 240;

/// What the window procedure is waiting for in the middle of one message.
#[derive(Clone, Copy, Debug, PartialEq, Eq, Structural)]
pub enum Pending {
    /// Between messages.
    Nothing,
    /// The cursor position that starts a drag.
    DragStartCursor,
    /// The cursor position of a move while dragging.
    MoveCursor,
    /// The virtual desktop, for a move to the given cursor position.
    MoveScreen(Point),
}

/// A key that the input window reacts to.
#[derive(Clone, Copy, Debug, PartialEq, Eq, Structural)]
pub enum Key {
    Escape,
    Other,
}

/// An event handed to the drag machine: a window message, or the answer to a
/// query that the previous action asked for.
#[derive(Clone, Copy, Debug, PartialEq, Eq, Structural)]
pub enum InputEvent {
    ButtonDown,
    MouseMove,
    ButtonUp,
    KeyDown(Key),
    /// The window's monitor changed its DPI, or the window moved to a monitor
    /// of another DPI; the new DPI.
    DpiChanged(u32),
    Destroy,
    /// Any other window message.
    Other,
    /// The cursor position, `None` where it could not be read.
    CursorRead(Option<Point>),
    /// The virtual desktop as the system metrics give it.
    ScreenRead(VirtualScreen),
}

/// What the window procedure does next.
#[derive(Clone, Copy, Debug, PartialEq, Eq, Structural)]
pub enum InputAction {
    /// Capture the mouse, then read the cursor and hand it back.
    CaptureAndReadCursor,
    /// Read the cursor and hand it back.
    ReadCursor,
    /// Read the virtual desktop and hand it back.
    ReadScreen,
    /// Move the input window's top-left corner to the point, then answer 0.
    MoveWindow(Point),
    /// Give the input window this top-left corner and this size, and the
    /// capsule region of that size, then answer 0.
    ResizeWindow { position: Point, size: Point },
    /// As `ResizeWindow`, during a drag: then read the cursor and hand it
    /// back, for the drag to start anew from the resized lens.
    ResizeAndReadCursor { position: Point, size: Point },
    /// Release the mouse capture, then answer 0.
    ReleaseMouse,
    /// Destroy the window, then answer 0.
    DestroyWindow,
    /// Answer 0.
    Reply,
    /// Leave the message to the default window procedure.
    PassToDefault,
}

/// The state of the lens and of a drag in progress.
#[derive(Clone, Copy, Debug, PartialEq, Eq, Structural)]
pub struct DragState {
    /// The left button went down on the lens and has not come up.
    pub dragging: bool,
    /// The cursor position at which the drag started.
    pub drag_cursor: Point,
    /// The lens position at which the drag started.
    pub drag_lens: Point,
    /// The lens position: the top-left corner of the lens window.
    pub lens: Point,
    /// The DPI of the lens's monitor, which gives the lens's size.
    pub dpi: u32,
    pub pending: Pending,
}

/// The lens's size in physical pixels in state `s`.
pub open spec fn spec_size(s: DragState) -> Point {
    spec_lens_size(s.dpi)
}

/// The highest left edge the lens may take on a screen that starts at `lo`
/// and ends at `end`, for a lens of extent `size`: the lens ends inside the
/// screen, or starts at its left edge where it does not fit.
pub open spec fn upper_bound(lo: int, end: int, size: int) -> int {
    spec_max(end - size, lo)
}

/// Where a drag puts a lens of size `size`: the start position moved by the
/// cursor's motion, clamped to the virtual desktop.
pub open spec fn spec_drag_target(
    drag_lens: Point,
    drag_cursor: Point,
    cursor: Point,
    screen: VirtualScreen,
    size: Point,
) -> Point {
    Point {
        x: spec_clamp(
            drag_lens.x + cursor.x - drag_cursor.x,
            screen.left as int,
            upper_bound(screen.left as int, screen.left + screen.width, size.x as int),
        ) as i32,
        y: spec_clamp(
            drag_lens.y + cursor.y - drag_cursor.y,
            screen.top as int,
            upper_bound(screen.top as int, screen.top + screen.height, size.y as int),
        ) as i32,
    }
}

/// Every intermediate value of the drag arithmetic fits in `i32`.
pub open spec fn drag_fits(
    drag_lens: Point,
    drag_cursor: Point,
    cursor: Point,
    screen: VirtualScreen,
    size: Point,
) -> bool {
    &&& fits_i32(drag_lens.x + cursor.x)
    &&& fits_i32(drag_lens.x + cursor.x - drag_cursor.x)
    &&& fits_i32(drag_lens.y + cursor.y)
    &&& fits_i32(drag_lens.y + cursor.y - drag_cursor.y)
    &&& fits_i32(screen.left + screen.width)
    &&& fits_i32(screen.top + screen.height)
    &&& fits_i32(screen.left + screen.width - size.x)
    &&& fits_i32(screen.top + screen.height - size.y)
}

/// Tells whether `drag_target` can be called on these values.
pub fn drag_arithmetic_fits(
    drag_lens: Point,
    drag_cursor: Point,
    cursor: Point,
    screen: VirtualScreen,
    size: Point,
) -> (r: bool)
    ensures
        r == drag_fits(drag_lens, drag_cursor, cursor, screen, size),
{
    let x = drag_lens.x as i64 + cursor.x as i64;
    let y = drag_lens.y as i64 + cursor.y as i64;
    let right = screen.left as i64 + screen.width as i64;
    let bottom = screen.top as i64 + screen.height as i64;
    i64_fits_i32(x) && i64_fits_i32(x - drag_cursor.x as i64) && i64_fits_i32(y) && i64_fits_i32(
        y - drag_cursor.y as i64,
    ) && i64_fits_i32(right) && i64_fits_i32(bottom) && i64_fits_i32(right - size.x as i64)
        && i64_fits_i32(bottom - size.y as i64)
}

/// Computes where a drag puts a lens of size `size`.
pub fn drag_target(
    drag_lens: Point,
    drag_cursor: Point,
    cursor: Point,
    screen: VirtualScreen,
    size: Point,
) -> (r: Point)
    requires
        drag_fits(drag_lens, drag_cursor, cursor, screen, size),
    ensures
        r == spec_drag_target(drag_lens, drag_cursor, cursor, screen, size),
{
    let right = screen.left + screen.width;
    let bottom = screen.top + screen.height;
    let x = clamp_i32(
        drag_lens.x + cursor.x - drag_cursor.x,
        screen.left,
        max_i32(right - size.x, screen.left),
    );
    let y = clamp_i32(
        drag_lens.y + cursor.y - drag_cursor.y,
        screen.top,
        max_i32(bottom - size.y, screen.top),
    );
    Point { x, y }
}

/// Half of `d`, rounded toward zero, as integer division does.
pub open spec fn half_toward_zero(d: int) -> int {
    if d >= 0 {
        d / 2
    } else {
        -((-d) / 2)
    }
}

/// A DPI change is taken when the DPI is known (not 0) and differs from the
/// current one.
pub open spec fn dpi_change_taken(s: DragState, dpi: u32) -> bool {
    dpi != 0 && dpi != s.dpi
}

/// Where the lens goes when its size changes from `old` to `new`: it keeps
/// its centre, up to rounding.
pub open spec fn spec_recentered(lens: Point, old: Point, new: Point) -> Point {
    Point {
        x: (lens.x + half_toward_zero(old.x - new.x)) as i32,
        y: (lens.y + half_toward_zero(old.y - new.y)) as i32,
    }
}

/// The arithmetic of recentring the lens fits in `i32`.
pub open spec fn recenter_fits(lens: Point, old: Point, new: Point) -> bool {
    &&& fits_i32(old.x - new.x)
    &&& fits_i32(old.y - new.y)
    &&& fits_i32(lens.x + half_toward_zero(old.x - new.x))
    &&& fits_i32(lens.y + half_toward_zero(old.y - new.y))
}

fn half_toward_zero_i64(d: i64) -> (r: i64)
    requires
        -0x1_0000_0000 <= d <= 0x1_0000_0000,
    ensures
        r == half_toward_zero(d as int),
{
    if d >= 0 {
        d / 2
    } else {
        let m: i64 = -d;
        -(m / 2)
    }
}

/// Tells whether the lens can be recentred from size `old` to size `new`.
pub fn recenter_arithmetic_fits(lens: Point, old: Point, new: Point) -> (r: bool)
    ensures
        r == recenter_fits(lens, old, new),
{
    let dx = old.x as i64 - new.x as i64;
    let dy = old.y as i64 - new.y as i64;
    i64_fits_i32(dx) && i64_fits_i32(dy) && i64_fits_i32(lens.x as i64 + half_toward_zero_i64(dx))
        && i64_fits_i32(lens.y as i64 + half_toward_zero_i64(dy))
}

/// Whether the machine takes `e` in state `s`: window messages between
/// messages, and otherwise exactly the answer that the last action asked for;
/// always with arithmetic that fits in `i32`.
pub open spec fn accepts(s: DragState, e: InputEvent) -> bool {
    match s.pending {
        Pending::Nothing => match e {
            InputEvent::CursorRead(_) => false,
            InputEvent::ScreenRead(_) => false,
            InputEvent::DpiChanged(dpi) => dpi_change_taken(s, dpi) ==> recenter_fits(
                s.lens,
                spec_size(s),
                spec_lens_size(dpi),
            ),
            _ => true,
        },
        Pending::DragStartCursor => e is CursorRead,
        Pending::MoveCursor => e is CursorRead,
        Pending::MoveScreen(cursor) => match e {
            InputEvent::ScreenRead(screen) => drag_fits(
                s.drag_lens,
                s.drag_cursor,
                cursor,
                screen,
                spec_size(s),
            ),
            _ => false,
        },
    }
}

/// One step of the drag machine.
pub open spec fn spec_step(s: DragState, e: InputEvent) -> (DragState, InputAction) {
    match s.pending {
        Pending::Nothing => match e {
            InputEvent::ButtonDown => (
                DragState {
                    dragging: true,
                    drag_lens: s.lens,
                    pending: Pending::DragStartCursor,
                    ..s
                },
                InputAction::CaptureAndReadCursor,
            ),
            InputEvent::MouseMove => if s.dragging {
                (DragState { pending: Pending::MoveCursor, ..s }, InputAction::ReadCursor)
            } else {
                (s, InputAction::PassToDefault)
            },
            InputEvent::ButtonUp => (DragState { dragging: false, ..s }, InputAction::ReleaseMouse),
            InputEvent::KeyDown(Key::Escape) => (s, InputAction::DestroyWindow),
            InputEvent::DpiChanged(dpi) => if dpi_change_taken(s, dpi) {
                let size = spec_lens_size(dpi);
                let position = spec_recentered(s.lens, spec_size(s), size);
                if s.dragging {
                    (
                        DragState {
                            lens: position,
                            dpi,
                            drag_lens: position,
                            pending: Pending::DragStartCursor,
                            ..s
                        },
                        InputAction::ResizeAndReadCursor { position, size },
                    )
                } else {
                    (
                        DragState { lens: position, dpi, ..s },
                        InputAction::ResizeWindow { position, size },
                    )
                }
            } else {
                (s, InputAction::Reply)
            },
            InputEvent::Destroy => (s, InputAction::Reply),
            _ => (s, InputAction::PassToDefault),
        },
        Pending::DragStartCursor => match e {
            InputEvent::CursorRead(Some(p)) => (
                DragState { drag_cursor: p, pending: Pending::Nothing, ..s },
                InputAction::Reply,
            ),
            _ => (DragState { pending: Pending::Nothing, ..s }, InputAction::Reply),
        },
        Pending::MoveCursor => match e {
            InputEvent::CursorRead(Some(p)) => (
                DragState { pending: Pending::MoveScreen(p), ..s },
                InputAction::ReadScreen,
            ),
            _ => (DragState { pending: Pending::Nothing, ..s }, InputAction::Reply),
        },
        Pending::MoveScreen(cursor) => match e {
            InputEvent::ScreenRead(screen) => {
                let t = spec_drag_target(s.drag_lens, s.drag_cursor, cursor, screen, spec_size(s));
                if t != s.lens {
                    (
                        DragState { lens: t, pending: Pending::Nothing, ..s },
                        InputAction::MoveWindow(t),
                    )
                } else {
                    (DragState { pending: Pending::Nothing, ..s }, InputAction::Reply)
                }
            },
            _ => (DragState { pending: Pending::Nothing, ..s }, InputAction::Reply),
        },
    }
}

/// The machine's invariant: a message is only ever half-handled during a drag.
pub open spec fn drag_wf(s: DragState) -> bool {
    s.pending != Pending::Nothing ==> s.dragging
}

impl DragState {
    /// The state at start-up on a monitor of DPI `dpi` (96 where it could not
    /// be read): no drag, the lens at its start position, the start cursor
    /// and start lens at the origin.
    pub fn new(dpi: Option<u32>) -> (s: DragState)
        ensures
            !s.dragging,
            s.pending == Pending::Nothing,
            s.lens == (Point { x: LENS_START_X, y: LENS_START_Y }),
            s.drag_cursor == (Point { x: 0, y: 0 }),
            s.drag_lens == (Point { x: 0, y: 0 }),
            s.dpi == match dpi {
                Some(d) => d,
                None => BASE_DPI,
            },
            drag_wf(s),
    {
        let dpi = match dpi {
            Some(d) => d,
            None => BASE_DPI,
        };
        DragState {
            dragging: false,
            drag_cursor: Point { x: 0, y: 0 },
            drag_lens: Point { x: 0, y: 0 },
            lens: Point { x: LENS_START_X, y: LENS_START_Y },
            dpi,
            pending: Pending::Nothing,
        }
    }

    /// The lens's size in physical pixels.
    pub fn size(&self) -> (r: Point)
        ensures
            r == spec_size(*self),
    {
        lens_size(self.dpi)
    }

    /// Whether the machine takes `e` now.
    pub fn can_take(&self, e: InputEvent) -> (r: bool)
        ensures
            r == accepts(*self, e),
    {
        match self.pending {
            Pending::Nothing => match e {
                InputEvent::CursorRead(_) => false,
                InputEvent::ScreenRead(_) => false,
                InputEvent::DpiChanged(dpi) => {
                    if dpi != 0 && dpi != self.dpi {
                        recenter_arithmetic_fits(self.lens, self.size(), lens_size(dpi))
                    } else {
                        true
                    }
                },
                _ => true,
            },
            Pending::DragStartCursor => matches!(e, InputEvent::CursorRead(_)),
            Pending::MoveCursor => matches!(e, InputEvent::CursorRead(_)),
            Pending::MoveScreen(cursor) => match e {
                InputEvent::ScreenRead(screen) => drag_arithmetic_fits(
                    self.drag_lens,
                    self.drag_cursor,
                    cursor,
                    screen,
                    self.size(),
                ),
                _ => false,
            },
        }
    }

    /// Takes one event and says what to do next.
    pub fn step(&mut self, e: InputEvent) -> (a: InputAction)
        requires
            accepts(*old(self), e),
        ensures
            (*final(self), a) == spec_step(*old(self), e),
    {
        match self.pending {
            Pending::Nothing => match e {
                InputEvent::ButtonDown => {
                    self.dragging = true;
                    self.drag_lens = self.lens;
                    self.pending = Pending::DragStartCursor;
                    InputAction::CaptureAndReadCursor
                },
                InputEvent::MouseMove => {
                    if self.dragging {
                        self.pending = Pending::MoveCursor;
                        InputAction::ReadCursor
                    } else {
                        InputAction::PassToDefault
                    }
                },
                InputEvent::ButtonUp => {
                    self.dragging = false;
                    InputAction::ReleaseMouse
                },
                InputEvent::KeyDown(Key::Escape) => InputAction::DestroyWindow,
                InputEvent::DpiChanged(dpi) => {
                    if dpi != 0 && dpi != self.dpi {
                        let old = self.size();
                        let size = lens_size(dpi);
                        let dx = half_toward_zero_i64(old.x as i64 - size.x as i64);
                        let dy = half_toward_zero_i64(old.y as i64 - size.y as i64);
                        let position = Point {
                            x: (self.lens.x as i64 + dx) as i32,
                            y: (self.lens.y as i64 + dy) as i32,
                        };
                        self.lens = position;
                        self.dpi = dpi;
                        if self.dragging {
                            self.drag_lens = position;
                            self.pending = Pending::DragStartCursor;
                            InputAction::ResizeAndReadCursor { position, size }
                        } else {
                            InputAction::ResizeWindow { position, size }
                        }
                    } else {
                        InputAction::Reply
                    }
                },
                InputEvent::Destroy => InputAction::Reply,
                _ => InputAction::PassToDefault,
            },
            Pending::DragStartCursor => {
                if let InputEvent::CursorRead(Some(p)) = e {
                    self.drag_cursor = p;
                }
                self.pending = Pending::Nothing;
                InputAction::Reply
            },
            Pending::MoveCursor => {
                if let InputEvent::CursorRead(Some(p)) = e {
                    self.pending = Pending::MoveScreen(p);
                    InputAction::ReadScreen
                } else {
                    self.pending = Pending::Nothing;
                    InputAction::Reply
                }
            },
            Pending::MoveScreen(cursor) => {
                self.pending = Pending::Nothing;
                if let InputEvent::ScreenRead(screen) = e {
                    let t = drag_target(self.drag_lens, self.drag_cursor, cursor, screen, self.size());
                    if t.x != self.lens.x || t.y != self.lens.y {
                        self.lens = t;
                        InputAction::MoveWindow(t)
                    } else {
                        InputAction::Reply
                    }
                } else {
                    InputAction::Reply
                }
            },
        }
    }
}

/// The range of left edges that a lens of width `size.x` may take on the
/// desktop, and likewise of top edges.
pub open spec fn in_drag_range(p: Point, screen: VirtualScreen, size: Point) -> bool {
    &&& screen.left <= p.x <= upper_bound(screen.left as int, screen.left + screen.width, size.x as int)
    &&& screen.top <= p.y <= upper_bound(screen.top as int, screen.top + screen.height, size.y as int)
}

/// A drag keeps the lens on the virtual desktop: its left edge is never left of
/// the desktop and, where the lens is narrower than the desktop, its right edge
/// is never right of it; where it is wider, it sits at the desktop's left edge.
/// The same holds vertically.
pub proof fn lemma_drag_target_on_screen(
    drag_lens: Point,
    drag_cursor: Point,
    cursor: Point,
    screen: VirtualScreen,
    size: Point,
)
    requires
        drag_fits(drag_lens, drag_cursor, cursor, screen, size),
    ensures
        ({
            let t = spec_drag_target(drag_lens, drag_cursor, cursor, screen, size);
            &&& in_drag_range(t, screen, size)
            &&& screen.width >= size.x ==> t.x + size.x <= screen.left + screen.width
            &&& screen.width < size.x ==> t.x == screen.left
            &&& screen.height >= size.y ==> t.y + size.y <= screen.top + screen.height
            &&& screen.height < size.y ==> t.y == screen.top
        }),
{
}

/// Within the desktop, the lens follows the cursor exactly: where the start
/// position moved by the cursor's motion is a position the lens may take, the
/// drag puts the lens there.
pub proof fn lemma_drag_target_follows_cursor(
    drag_lens: Point,
    drag_cursor: Point,
    cursor: Point,
    screen: VirtualScreen,
    size: Point,
)
    requires
        drag_fits(drag_lens, drag_cursor, cursor, screen, size),
        in_drag_range(
            Point {
                x: (drag_lens.x + cursor.x - drag_cursor.x) as i32,
                y: (drag_lens.y + cursor.y - drag_cursor.y) as i32,
            },
            screen,
            size,
        ),
    ensures
        spec_drag_target(drag_lens, drag_cursor, cursor, screen, size) == (Point {
            x: (drag_lens.x + cursor.x - drag_cursor.x) as i32,
            y: (drag_lens.y + cursor.y - drag_cursor.y) as i32,
        }),
{
}

/// A move of the mouse with the cursor where the drag started leaves a lens
/// that sits where the drag started, on the desktop, where it is.
pub proof fn lemma_still_cursor_keeps_lens(
    drag_lens: Point,
    drag_cursor: Point,
    screen: VirtualScreen,
    size: Point,
)
    requires
        drag_fits(drag_lens, drag_cursor, drag_cursor, screen, size),
        in_drag_range(drag_lens, screen, size),
    ensures
        spec_drag_target(drag_lens, drag_cursor, drag_cursor, screen, size) == drag_lens,
{
}

/// Until every step of a message has been taken, the machine is in a drag.
pub proof fn lemma_step_preserves_wf(s: DragState, e: InputEvent)
    requires
        drag_wf(s),
        accepts(s, e),
    ensures
        drag_wf(spec_step(s, e).0),
{
}

/// The lens moves only together with the action that moves its window, to the
/// new lens position, and that action is only taken when the position changed;
/// its size changes only together with the action that resizes its window, to
/// the new size.
pub proof fn lemma_lens_changes_only_with_window(s: DragState, e: InputEvent)
    requires
        accepts(s, e),
    ensures
        ({
            let (n, a) = spec_step(s, e);
            &&& n.lens != s.lens ==> (a == InputAction::MoveWindow(n.lens) || a
                == InputAction::ResizeWindow { position: n.lens, size: spec_size(n) } || a
                == InputAction::ResizeAndReadCursor { position: n.lens, size: spec_size(n) })
            &&& spec_size(n) != spec_size(s) ==> (a == InputAction::ResizeWindow {
                position: n.lens,
                size: spec_size(n),
            } || a == InputAction::ResizeAndReadCursor { position: n.lens, size: spec_size(n) })
            &&& a is MoveWindow ==> a == InputAction::MoveWindow(n.lens) && n.lens != s.lens
                && n.dpi == s.dpi
            &&& a is ResizeWindow ==> a == InputAction::ResizeWindow {
                position: n.lens,
                size: spec_size(n),
            }
            &&& a is ResizeAndReadCursor ==> a == InputAction::ResizeAndReadCursor {
                position: n.lens,
                size: spec_size(n),
            }
        }),
{
}

/// The window is moved only during a drag, to the drag target of the cursor
/// and desktop that were read for the move, which lies on the desktop.
pub proof fn lemma_move_is_drag_target(s: DragState, e: InputEvent)
    requires
        drag_wf(s),
        accepts(s, e),
        spec_step(s, e).1 is MoveWindow,
    ensures
        s.dragging,
        ({
            let p = spec_step(s, e).0.lens;
            match (s.pending, e) {
                (Pending::MoveScreen(cursor), InputEvent::ScreenRead(screen)) => {
                    &&& p == spec_drag_target(s.drag_lens, s.drag_cursor, cursor, screen, spec_size(s))
                    &&& in_drag_range(p, screen, spec_size(s))
                    &&& screen.width >= spec_size(s).x ==> p.x + spec_size(s).x <= screen.left
                        + screen.width
                    &&& screen.height >= spec_size(s).y ==> p.y + spec_size(s).y <= screen.top
                        + screen.height
                },
                _ => false,
            }
        }),
{
    if let (Pending::MoveScreen(cursor), InputEvent::ScreenRead(screen)) = (s.pending, e) {
        lemma_drag_target_on_screen(s.drag_lens, s.drag_cursor, cursor, screen, spec_size(s));
    }
}

/// A new DPI gives the lens its size at that DPI and keeps the lens's centre,
/// up to rounding to whole pixels. Outside a drag the drag's start is left as
/// it is; during a drag, the drag starts anew from the resized lens and the
/// cursor that is read next (or, where it cannot be read, the old start
/// cursor), so that the next move does not undo the recentring. An unknown or
/// unchanged DPI changes nothing.
pub proof fn lemma_dpi_change_keeps_centre(s: DragState, dpi: u32)
    requires
        s.pending == Pending::Nothing,
        accepts(s, InputEvent::DpiChanged(dpi)),
    ensures
        ({
            let (n, a) = spec_step(s, InputEvent::DpiChanged(dpi));
            &&& dpi_change_taken(s, dpi) ==> {
                &&& n.dpi == dpi
                &&& spec_size(n) == spec_lens_size(dpi)
                &&& -1 <= (2 * n.lens.x + spec_size(n).x) - (2 * s.lens.x + spec_size(s).x) <= 1
                &&& -1 <= (2 * n.lens.y + spec_size(n).y) - (2 * s.lens.y + spec_size(s).y) <= 1
                &&& n.dragging == s.dragging
                &&& !s.dragging ==> {
                    &&& a == InputAction::ResizeWindow { position: n.lens, size: spec_size(n) }
                    &&& n.pending == Pending::Nothing
                    &&& n.drag_lens == s.drag_lens && n.drag_cursor == s.drag_cursor
                }
                &&& s.dragging ==> {
                    &&& a == InputAction::ResizeAndReadCursor { position: n.lens, size: spec_size(n) }
                    &&& n.pending == Pending::DragStartCursor
                    &&& n.drag_lens == n.lens
                    &&& forall|c: Point|
                        #![trigger spec_step(n, InputEvent::CursorRead(Some(c)))]
                        spec_step(n, InputEvent::CursorRead(Some(c))) == (
                            DragState { drag_cursor: c, pending: Pending::Nothing, ..n },
                            InputAction::Reply,
                        )
                    &&& spec_step(n, InputEvent::CursorRead(None)) == (
                        DragState { pending: Pending::Nothing, ..n },
                        InputAction::Reply,
                    )
                }
            }
            &&& !dpi_change_taken(s, dpi) ==> (n, a) == (s, InputAction::Reply)
        }),
{
}

/// Pressing the button starts a drag from the current lens position; releasing
/// it ends the drag and releases the mouse.
pub proof fn lemma_press_and_release(s: DragState)
    requires
        s.pending == Pending::Nothing,
    ensures
        ({
            let (n, a) = spec_step(s, InputEvent::ButtonDown);
            n.dragging && n.drag_lens == s.lens && n.lens == s.lens && a
                == InputAction::CaptureAndReadCursor
        }),
        ({
            let (n, a) = spec_step(s, InputEvent::ButtonUp);
            !n.dragging && n.lens == s.lens && a == InputAction::ReleaseMouse
        }),
{
}

/// Without a drag, moving the mouse changes nothing and is left to the default
/// window procedure.
pub proof fn lemma_motion_without_drag(s: DragState)
    requires
        s.pending == Pending::Nothing,
        !s.dragging,
    ensures
        spec_step(s, InputEvent::MouseMove) == (s, InputAction::PassToDefault),
{
}

/// Escape closes the lens: between messages, the key destroys the input
/// window and changes nothing else.
pub proof fn lemma_escape_destroys(s: DragState)
    requires
        s.pending == Pending::Nothing,
    ensures
        spec_step(s, InputEvent::KeyDown(Key::Escape)) == (s, InputAction::DestroyWindow),
{
}

/// The state after the button goes down with the cursor read as `cursor`.
pub open spec fn spec_press(s: DragState, cursor: Option<Point>) -> DragState {
    spec_step(spec_step(s, InputEvent::ButtonDown).0, InputEvent::CursorRead(cursor)).0
}

/// The state after one mouse move, with the cursor read as `cursor` and the
/// desktop as `screen`.
pub open spec fn spec_move(s: DragState, cursor: Point, screen: VirtualScreen) -> DragState {
    let s1 = spec_step(s, InputEvent::MouseMove).0;
    let s2 = spec_step(s1, InputEvent::CursorRead(Some(cursor))).0;
    spec_step(s2, InputEvent::ScreenRead(screen)).0
}

/// The state after one mouse move for each cursor position of `cursors`, in
/// order, on the desktop `screen`.
pub open spec fn spec_moves(s: DragState, cursors: Seq<Point>, screen: VirtualScreen) -> DragState
    decreases cursors.len(),
{
    if cursors.len() == 0 {
        s
    } else {
        spec_move(spec_moves(s, cursors.drop_last(), screen), cursors.last(), screen)
    }
}

/// Moves during a drag keep the drag: its start and the lens's DPI stay as
/// they are, every step of every move is taken, and the lens ends at the drag
/// target of the last cursor.
pub proof fn lemma_moves_keep_drag(s: DragState, cursors: Seq<Point>, screen: VirtualScreen)
    requires
        s.dragging,
        s.pending == Pending::Nothing,
        forall|i: int|
            0 <= i < cursors.len() ==> drag_fits(
                s.drag_lens,
                s.drag_cursor,
                #[trigger] cursors[i],
                screen,
                spec_size(s),
            ),
    ensures
        ({
            let f = spec_moves(s, cursors, screen);
            &&& f.dragging
            &&& f.pending == Pending::Nothing
            &&& f.drag_lens == s.drag_lens
            &&& f.drag_cursor == s.drag_cursor
            &&& f.dpi == s.dpi
            &&& cursors.len() == 0 ==> f == s
            &&& cursors.len() > 0 ==> f.lens == spec_drag_target(
                s.drag_lens,
                s.drag_cursor,
                cursors.last(),
                screen,
                spec_size(s),
            )
        }),
    decreases cursors.len(),
{
    if cursors.len() > 0 {
        let prefix = cursors.drop_last();
        assert forall|i: int|
            0 <= i < prefix.len() implies drag_fits(
                s.drag_lens,
                s.drag_cursor,
                #[trigger] prefix[i],
                screen,
                spec_size(s),
            ) by {
            assert(prefix[i] == cursors[i]);
        }
        lemma_moves_keep_drag(s, prefix, screen);
        let m = spec_moves(s, prefix, screen);
        let s1 = spec_step(m, InputEvent::MouseMove).0;
        let s2 = spec_step(s1, InputEvent::CursorRead(Some(cursors.last()))).0;
        assert(cursors.last() == cursors[cursors.len() - 1]);
        assert(accepts(s2, InputEvent::ScreenRead(screen)));
    }
}

/// During a drag the lens depends only on where the drag started and on the
/// last cursor position, not on the moves before it: after the button goes
/// down at `start` and the mouse moves through `cursors`, the lens sits at the
/// start position moved by the last cursor's offset from `start`, clamped to
/// the desktop. In particular, a cursor brought back to `start` brings back a
/// lens that started within the desktop, with no drift.
pub proof fn lemma_drag_depends_on_last_cursor(
    s: DragState,
    start: Point,
    cursors: Seq<Point>,
    screen: VirtualScreen,
)
    requires
        s.pending == Pending::Nothing,
        cursors.len() > 0,
        forall|i: int|
            0 <= i < cursors.len() ==> drag_fits(
                s.lens,
                start,
                #[trigger] cursors[i],
                screen,
                spec_size(s),
            ),
    ensures
        ({
            let f = spec_moves(spec_press(s, Some(start)), cursors, screen);
            &&& f.lens == spec_drag_target(s.lens, start, cursors.last(), screen, spec_size(s))
            &&& (cursors.last() == start && in_drag_range(s.lens, screen, spec_size(s))) ==> f.lens
                == s.lens
        }),
{
    let p = spec_press(s, Some(start));
    assert(p.dragging && p.pending == Pending::Nothing && p.drag_lens == s.lens && p.drag_cursor
        == start && p.dpi == s.dpi);
    lemma_moves_keep_drag(p, cursors, screen);
    if cursors.last() == start && in_drag_range(s.lens, screen, spec_size(s)) {
        lemma_still_cursor_keeps_lens(s.lens, start, screen, spec_size(s));
    }
}

/// During a drag, a DPI change does not make the lens jump: once the cursor
/// has been read for the resized lens, a move with the cursor where it was
/// leaves the lens where the DPI change put it.
pub proof fn lemma_dpi_change_during_drag_keeps_lens(
    s: DragState,
    dpi: u32,
    cursor: Point,
    screen: VirtualScreen,
)
    requires
        s.dragging,
        s.pending == Pending::Nothing,
        dpi_change_taken(s, dpi),
        accepts(s, InputEvent::DpiChanged(dpi)),
        ({
            let n = spec_step(s, InputEvent::DpiChanged(dpi)).0;
            &&& drag_fits(n.lens, cursor, cursor, screen, spec_size(n))
            &&& in_drag_range(n.lens, screen, spec_size(n))
        }),
    ensures
        ({
            let n = spec_step(s, InputEvent::DpiChanged(dpi)).0;
            let m = spec_step(n, InputEvent::CursorRead(Some(cursor))).0;
            spec_move(m, cursor, screen).lens == n.lens
        }),
{
    let n = spec_step(s, InputEvent::DpiChanged(dpi)).0;
    lemma_still_cursor_keeps_lens(n.lens, cursor, screen, spec_size(n));
}

/// The state after the events `events`, one step each, in order.
pub open spec fn spec_run(s: DragState, events: Seq<InputEvent>) -> DragState
    decreases events.len(),
{
    if events.len() == 0 {
        s
    } else {
        spec_step(spec_run(s, events.drop_last()), events.last()).0
    }
}

/// A window message, as opposed to the answer to a query.
pub open spec fn is_message(e: InputEvent) -> bool {
    !(e is CursorRead) && !(e is ScreenRead)
}

/// Without a drag, no message but a button press starts one: after any run
/// of such messages the machine is still between messages and not dragging,
/// with the drag's start as it was; and where no DPI change comes either,
/// nothing changes at all, the lens included.
pub proof fn lemma_no_drag_without_press(s: DragState, events: Seq<InputEvent>)
    requires
        !s.dragging,
        s.pending == Pending::Nothing,
        forall|i: int|
            0 <= i < events.len() ==> is_message(#[trigger] events[i]) && events[i]
                != InputEvent::ButtonDown,
    ensures
        ({
            let f = spec_run(s, events);
            &&& !f.dragging
            &&& f.pending == Pending::Nothing
            &&& f.drag_lens == s.drag_lens
            &&& f.drag_cursor == s.drag_cursor
            &&& (forall|i: int| 0 <= i < events.len() ==> !(#[trigger] events[i] is DpiChanged))
                ==> f == s
        }),
    decreases events.len(),
{
    if events.len() > 0 {
        let prefix = events.drop_last();
        assert forall|i: int| 0 <= i < prefix.len() implies is_message(#[trigger] prefix[i])
            && prefix[i] != InputEvent::ButtonDown by {
            assert(prefix[i] == events[i]);
        }
        lemma_no_drag_without_press(s, prefix);
        assert(events.last() == events[events.len() - 1]);
        if forall|i: int| 0 <= i < events.len() ==> !(#[trigger] events[i] is DpiChanged) {
            assert forall|i: int| 0 <= i < prefix.len() implies !(#[trigger] prefix[i] is DpiChanged) by {
                assert(prefix[i] == events[i]);
            }
        }
    }
}

/// Releasing the button ends the drag for good: the lens stays where it is
/// after the release and after every later message up to the next press
/// (no DPI change coming between), and every move in between is left to the
/// default window procedure.
pub proof fn lemma_release_ends_drag(s: DragState, events: Seq<InputEvent>)
    requires
        s.pending == Pending::Nothing,
        forall|i: int|
            0 <= i < events.len() ==> is_message(#[trigger] events[i]) && events[i]
                != InputEvent::ButtonDown && !(events[i] is DpiChanged),
    ensures
        ({
            let r = spec_step(s, InputEvent::ButtonUp).0;
            &&& spec_step(s, InputEvent::ButtonUp).1 == InputAction::ReleaseMouse
            &&& !r.dragging
            &&& r.lens == s.lens
            &&& forall|k: int|
                0 <= k <= events.len() ==> #[trigger] spec_run(r, events.take(k)) == r
            &&& forall|k: int|
                0 <= k < events.len() && #[trigger] events[k] == InputEvent::MouseMove
                    ==> spec_step(spec_run(r, events.take(k)), events[k]).1
                    == InputAction::PassToDefault
        }),
{
    let r = spec_step(s, InputEvent::ButtonUp).0;
    assert forall|k: int| 0 <= k <= events.len() implies #[trigger] spec_run(r, events.take(k))
        == r by {
        let t = events.take(k);
        assert forall|i: int| 0 <= i < t.len() implies is_message(#[trigger] t[i]) && t[i]
            != InputEvent::ButtonDown by {
            assert(t[i] == events[i]);
        }
        assert forall|i: int| 0 <= i < t.len() implies !(#[trigger] t[i] is DpiChanged) by {
            assert(t[i] == events[i]);
        }
        lemma_no_drag_without_press(r, t);
    }
    assert forall|k: int|
        0 <= k < events.len() && #[trigger] events[k] == InputEvent::MouseMove implies spec_step(
        spec_run(r, events.take(k)),
        events[k],
    ).1 == InputAction::PassToDefault by {
        assert(spec_run(r, events.take(k)) == r);
    }
}

/// Between messages the machine takes every window message, in or out of a
/// drag; a DPI change only needs its recentring to fit in `i32`. While a
/// query is outstanding it takes every answer to it: any cursor read, and a
/// desktop read whose drag arithmetic fits in `i32`.
pub proof fn lemma_messages_are_taken(s: DragState, e: InputEvent)
    ensures
        (s.pending == Pending::Nothing && is_message(e) && !(e is DpiChanged)) ==> accepts(s, e),
        (s.pending == Pending::DragStartCursor || s.pending == Pending::MoveCursor) && e is CursorRead
            ==> accepts(s, e),
        (s.pending == Pending::Nothing && s.dpi != 0) ==> accepts(s, InputEvent::DpiChanged(0))
            && accepts(s, InputEvent::DpiChanged(s.dpi)),
{
}

/// During a drag, a move of the mouse asks for the cursor, the cursor read
/// asks for the desktop, and the desktop read puts the lens at the start
/// position moved by the cursor's offset from the drag's start cursor, clamped
/// so that the lens's left and top edges stay within the desktop and, where
/// the lens fits, its right and bottom edges do too.
pub proof fn lemma_move_during_drag(s: DragState, cursor: Point, screen: VirtualScreen)
    requires
        s.dragging,
        s.pending == Pending::Nothing,
        drag_fits(s.drag_lens, s.drag_cursor, cursor, screen, spec_size(s)),
    ensures
        accepts(s, InputEvent::MouseMove),
        spec_step(s, InputEvent::MouseMove) == (
            DragState { pending: Pending::MoveCursor, ..s },
            InputAction::ReadCursor,
        ),
        ({
            let s1 = DragState { pending: Pending::MoveCursor, ..s };
            let s2 = DragState { pending: Pending::MoveScreen(cursor), ..s };
            let size = spec_size(s);
            let f = spec_step(s2, InputEvent::ScreenRead(screen)).0;
            let want_x = s.drag_lens.x + cursor.x - s.drag_cursor.x;
            let want_y = s.drag_lens.y + cursor.y - s.drag_cursor.y;
            let right = screen.left + screen.width;
            let bottom = screen.top + screen.height;
            &&& accepts(s1, InputEvent::CursorRead(Some(cursor)))
            &&& spec_step(s1, InputEvent::CursorRead(Some(cursor))) == (s2, InputAction::ReadScreen)
            &&& accepts(s2, InputEvent::ScreenRead(screen))
            &&& f.pending == Pending::Nothing
            &&& f.dragging && f.drag_lens == s.drag_lens && f.drag_cursor == s.drag_cursor
            &&& f.dpi == s.dpi
            &&& screen.left <= f.lens.x && screen.top <= f.lens.y
            &&& (right - size.x >= screen.left ==> f.lens.x <= right - size.x)
            &&& (right - size.x < screen.left ==> f.lens.x == screen.left)
            &&& (bottom - size.y >= screen.top ==> f.lens.y <= bottom - size.y)
            &&& (bottom - size.y < screen.top ==> f.lens.y == screen.top)
            &&& (screen.left <= want_x <= right - size.x ==> f.lens.x == want_x)
            &&& (screen.top <= want_y <= bottom - size.y ==> f.lens.y == want_y)
            &&& (want_x < screen.left ==> f.lens.x == screen.left)
            &&& (want_y < screen.top ==> f.lens.y == screen.top)
            &&& (screen.left <= right - size.x < want_x ==> f.lens.x == right - size.x)
            &&& (screen.top <= bottom - size.y < want_y ==> f.lens.y == bottom - size.y)
            &&& spec_step(s2, InputEvent::ScreenRead(screen)).1 == if f.lens != s.lens {
                InputAction::MoveWindow(f.lens)
            } else {
                InputAction::Reply
            }
        }),
{
}

/// A press records the cursor read for it as the drag's start cursor, or
/// keeps the old one where the cursor cannot be read, and is then answered.
pub proof fn lemma_press_records_cursor(s: DragState, c: Point)
    requires
        s.pending == Pending::Nothing,
    ensures
        ({
            let n = spec_step(s, InputEvent::ButtonDown).0;
            &&& n.pending == Pending::DragStartCursor
            &&& spec_step(n, InputEvent::CursorRead(Some(c))) == (
                DragState { drag_cursor: c, pending: Pending::Nothing, ..n },
                InputAction::Reply,
            )
            &&& spec_step(n, InputEvent::CursorRead(None)) == (
                DragState { pending: Pending::Nothing, ..n },
                InputAction::Reply,
            )
            &&& spec_press(s, Some(c)) == DragState {
                dragging: true,
                drag_lens: s.lens,
                drag_cursor: c,
                pending: Pending::Nothing,
                ..s
            }
        }),
{
}

} // verus!
