//! The interaction state machine: which events move the window, which resize
//! it, and which end the program. The event loop hands each event to
//! [`Interaction::step`] and carries out the action that comes back.

use crate::geometry::{in_padded_interior, inside_padded_interior, Coord, CursorPosition, Point, Size};
use crate::render_state::{RenderError, SurfaceFault};
use vstd::prelude::*;

verus! {

/// What the left mouse button is doing to the window.
#[derive(Clone, Copy, Debug, PartialEq, Eq, Structural)]
pub enum Gesture {
    /// The button is up.
    Idle,
    /// The button went down and the mouse has not moved since.
    Pressed,
    /// The drag moves the window.
    Moving,
    /// The drag resizes the window.
    Resizing,
}

/// A mouse button.
#[derive(Clone, Copy, Debug, PartialEq, Eq, Structural)]
pub enum MouseButton {
    Left,
    Right,
    Middle,
    Other(u16),
}

/// A key, as far as the program tells keys apart.
#[derive(Clone, Copy, Debug, PartialEq, Eq, Structural)]
pub enum Key {
    Escape,
    Other,
}

/// Where the window is and how large, as far as the window system says.
#[derive(Clone, Copy, Debug, PartialEq, Eq)]
pub struct WindowGeometry {
    /// The top-left corner of the window on the screen, if it is known.
    pub outer_position: Option<Point>,
    /// The size of the window's contents.
    pub inner_size: Size,
}

/// What the event loop reports.
#[derive(Clone, Copy, Debug, PartialEq, Eq)]
pub enum Event {
    /// A window must be drawn again; `own_window` says whether it is ours.
    RedrawRequested { own_window: bool },
    /// All pending redraws have been handled.
    RedrawEventsCleared,
    /// A mouse button went down or up over the window.
    MouseInput { button: MouseButton, pressed: bool },
    /// The cursor is now at `position` within the window.
    CursorMoved { position: CursorPosition },
    /// The mouse moved by `(dx, dy)`, while the window was as `window` says.
    MouseMotion { dx: i32, dy: i32, window: WindowGeometry },
    /// The user asked to close the window.
    CloseRequested,
    /// A key went down or up.
    KeyboardInput { key: Key, pressed: bool },
    /// The frame asked for by [`Action::Render`] is done, or has failed.
    FrameFinished { result: Result<(), RenderError> },
    /// Anything else.
    Other,
}

/// What the event loop is to do next.
#[derive(Clone, Copy, Debug, PartialEq, Eq)]
pub enum Action {
    Nothing,
    /// Draw a frame and report how it went.
    Render,
    /// Ask the window system for a redraw.
    RequestRedraw,
    /// Put the window's top-left corner at `(x, y)`, then bring the renderer
    /// up to date. `position_unknown` says that the window's position could
    /// not be read and the origin was taken instead, which is worth a
    /// message.
    MoveWindow { x: i64, y: i64, position_unknown: bool },
    /// Give the window's contents the size `width` by `height`, then bring
    /// the renderer up to date.
    ResizeWindow { width: i64, height: i64 },
    /// Report the fault and go on.
    ReportFrameError { fault: SurfaceFault },
    /// Leave the event loop.
    Exit,
}

/// The state of the interaction between two events.
#[derive(Clone, Copy, Debug, PartialEq, Eq, Structural)]
pub struct Interaction {
    pub gesture: Gesture,
    /// Where the cursor was last seen.
    pub cursor: CursorPosition,
}

/// The event is the release of the left mouse button.
pub open spec fn is_left_release(event: Event) -> bool {
    event matches Event::MouseInput { button: MouseButton::Left, pressed: false }
}

/// The gesture after a mouse button went down or up. Only the left button
/// counts: pressing it starts a gesture unless one is under way, releasing it
/// ends whatever gesture there is.
pub open spec fn gesture_after_button(gesture: Gesture, button: MouseButton, pressed: bool)
    -> Gesture {
    if button != MouseButton::Left {
        gesture
    } else if !pressed {
        Gesture::Idle
    } else if gesture == Gesture::Idle {
        Gesture::Pressed
    } else {
        gesture
    }
}

/// The gesture after the mouse moved. The first motion after a press decides
/// between moving and resizing, by where the cursor was last seen; after
/// that the gesture stays what it is.
pub open spec fn gesture_after_motion(gesture: Gesture, cursor: CursorPosition, inner_size: Size)
    -> Gesture {
    if gesture == Gesture::Pressed {
        if in_padded_interior(cursor, inner_size) {
            Gesture::Moving
        } else {
            Gesture::Resizing
        }
    } else {
        gesture
    }
}

/// Where a window at `position` is after moving by `(dx, dy)`; a window whose
/// position is unknown counts as being at the origin.
pub open spec fn moved(position: Option<Point>, dx: i32, dy: i32) -> Action {
    match position {
        Some(p) => Action::MoveWindow {
            x: (p.x + dx) as i64,
            y: (p.y + dy) as i64,
            position_unknown: false,
        },
        None => Action::MoveWindow { x: dx as i64, y: dy as i64, position_unknown: true },
    }
}

/// The size of a window of size `size` after growing by `(dx, dy)`.
pub open spec fn resized(size: Size, dx: i32, dy: i32) -> Action {
    Action::ResizeWindow { width: (size.width + dx) as i64, height: (size.height + dy) as i64 }
}

/// What a motion of the mouse does to the window under the gesture that it
/// belongs to.
pub open spec fn motion_action(gesture: Gesture, dx: i32, dy: i32, window: WindowGeometry)
    -> Action {
    match gesture {
        Gesture::Moving => moved(window.outer_position, dx, dy),
        Gesture::Resizing => resized(window.inner_size, dx, dy),
        _ => Action::Nothing,
    }
}

/// What the program does about a finished frame.
pub open spec fn frame_action(result: Result<(), RenderError>) -> Action {
    match result {
        Ok(_) => Action::Nothing,
        Err(RenderError::Fatal(_)) => Action::Exit,
        Err(RenderError::Recoverable(fault)) => Action::ReportFrameError { fault },
    }
}

impl Interaction {
    /// The state at start: no button down, the cursor at the origin.
    pub fn new() -> (s: Interaction)
        ensures
            s.gesture == Gesture::Idle,
            s.cursor == (CursorPosition {
                x: Coord { whole: 0, fraction: false },
                y: Coord { whole: 0, fraction: false },
            }),
    {
        Interaction {
            gesture: Gesture::Idle,
            cursor: CursorPosition { x: Coord::at_pixel(0), y: Coord::at_pixel(0) },
        }
    }

    /// The state after `event`, and what the event loop is to do.
    pub open spec fn next(self, event: Event) -> (Interaction, Action) {
        match event {
            Event::RedrawRequested { own_window } => (
                self,
                if own_window {
                    Action::Render
                } else {
                    Action::Nothing
                },
            ),
            Event::RedrawEventsCleared => (self, Action::RequestRedraw),
            Event::MouseInput { button, pressed } => (
                Interaction {
                    gesture: gesture_after_button(self.gesture, button, pressed),
                    cursor: self.cursor,
                },
                Action::Nothing,
            ),
            Event::CursorMoved { position } => (
                Interaction { gesture: self.gesture, cursor: position },
                Action::Nothing,
            ),
            Event::MouseMotion { dx, dy, window } => {
                let gesture = gesture_after_motion(self.gesture, self.cursor, window.inner_size);
                (
                    Interaction { gesture, cursor: self.cursor },
                    motion_action(gesture, dx, dy, window),
                )
            },
            Event::CloseRequested => (self, Action::Exit),
            Event::KeyboardInput { key, pressed } => (
                self,
                if key == Key::Escape && pressed {
                    Action::Exit
                } else {
                    Action::Nothing
                },
            ),
            Event::FrameFinished { result } => (self, frame_action(result)),
            Event::Other => (self, Action::Nothing),
        }
    }

    /// The state after all of `events`, in order.
    pub open spec fn run(self, events: Seq<Event>) -> Interaction
        decreases events.len(),
    {
        if events.len() == 0 {
            self
        } else {
            self.run(events.drop_last()).next(events.last()).0
        }
    }

    /// Handles one event: gives the state after it and the action to carry
    /// out.
    pub fn step(self, event: Event) -> (r: (Interaction, Action))
        ensures
            r == self.next(event),
    {
        match event {
            Event::RedrawRequested { own_window } => {
                if own_window {
                    (self, Action::Render)
                } else {
                    (self, Action::Nothing)
                }
            },
            Event::RedrawEventsCleared => (self, Action::RequestRedraw),
            Event::MouseInput { button, pressed } => {
                let gesture = match button {
                    MouseButton::Left => {
                        if !pressed {
                            Gesture::Idle
                        } else {
                            match self.gesture {
                                Gesture::Idle => Gesture::Pressed,
                                under_way => under_way,
                            }
                        }
                    },
                    _ => self.gesture,
                };
                (Interaction { gesture, cursor: self.cursor }, Action::Nothing)
            },
            Event::CursorMoved { position } => (
                Interaction { gesture: self.gesture, cursor: position },
                Action::Nothing,
            ),
            Event::MouseMotion { dx, dy, window } => {
                let gesture = match self.gesture {
                    Gesture::Pressed => {
                        if inside_padded_interior(self.cursor, window.inner_size) {
                            Gesture::Moving
                        } else {
                            Gesture::Resizing
                        }
                    },
                    decided => decided,
                };
                let action = match gesture {
                    Gesture::Moving => match window.outer_position {
                        Some(p) => Action::MoveWindow {
                            x: p.x as i64 + dx as i64,
                            y: p.y as i64 + dy as i64,
                            position_unknown: false,
                        },
                        None => Action::MoveWindow {
                            x: dx as i64,
                            y: dy as i64,
                            position_unknown: true,
                        },
                    },
                    Gesture::Resizing => Action::ResizeWindow {
                        width: window.inner_size.width as i64 + dx as i64,
                        height: window.inner_size.height as i64 + dy as i64,
                    },
                    _ => Action::Nothing,
                };
                (Interaction { gesture, cursor: self.cursor }, action)
            },
            Event::CloseRequested => (self, Action::Exit),
            Event::KeyboardInput { key, pressed } => match key {
                Key::Escape => {
                    if pressed {
                        (self, Action::Exit)
                    } else {
                        (self, Action::Nothing)
                    }
                },
                Key::Other => (self, Action::Nothing),
            },
            Event::FrameFinished { result } => match result {
                Ok(_) => (self, Action::Nothing),
                Err(RenderError::Fatal(_)) => (self, Action::Exit),
                Err(RenderError::Recoverable(fault)) => (self, Action::ReportFrameError { fault }),
            },
            Event::Other => (self, Action::Nothing),
        }
    }
}

/// A request to close the window, and the Escape key going down, end the
/// program from every state. A key going up never does, nor does any key but
/// Escape.
pub proof fn law_exit(s: Interaction, key: Key, pressed: bool)
    ensures
        s.next(Event::CloseRequested).1 == Action::Exit,
        s.next(Event::KeyboardInput { key: Key::Escape, pressed: true }).1 == Action::Exit,
        s.next(Event::KeyboardInput { key, pressed: false }).1 == Action::Nothing,
        s.next(Event::KeyboardInput { key: Key::Other, pressed }).1 == Action::Nothing,
        s.next(Event::KeyboardInput { key, pressed }).0 == s,
        s.next(Event::CloseRequested).0 == s,
{
}

/// While the window is being moved, a motion of the mouse by `(dx, dy)` puts
/// the top-left corner `(x, y)` of the window at exactly `(x + dx, y + dy)`.
pub proof fn law_move_adds_delta(s: Interaction, x: i32, y: i32, dx: i32, dy: i32, size: Size)
    requires
        s.gesture == Gesture::Moving || (s.gesture == Gesture::Pressed && in_padded_interior(
            s.cursor,
            size,
        )),
    ensures
        ({
            let window = WindowGeometry { outer_position: Some(Point { x, y }), inner_size: size };
            let r = s.next(Event::MouseMotion { dx, dy, window });
            &&& r.0.gesture == Gesture::Moving
            &&& r.1 matches Action::MoveWindow { x: nx, y: ny, position_unknown }
            &&& nx == x + dx
            &&& ny == y + dy
            &&& !position_unknown
        }),
{
}

/// While the window is being resized, a motion of the mouse by `(dx, dy)`
/// gives a window of size `(w, h)` exactly the size `(w + dx, h + dy)`.
pub proof fn law_resize_adds_delta(
    s: Interaction,
    position: Option<Point>,
    w: u32,
    h: u32,
    dx: i32,
    dy: i32,
)
    requires
        s.gesture == Gesture::Resizing || (s.gesture == Gesture::Pressed && !in_padded_interior(
            s.cursor,
            Size { width: w, height: h },
        )),
    ensures
        ({
            let window = WindowGeometry {
                outer_position: position,
                inner_size: Size { width: w, height: h },
            };
            let r = s.next(Event::MouseMotion { dx, dy, window });
            &&& r.0.gesture == Gesture::Resizing
            &&& r.1 matches Action::ResizeWindow { width, height }
            &&& width == w + dx
            &&& height == h + dy
        }),
{
}

/// Once a drag moves the window it goes on moving it, and once it resizes the
/// window it goes on resizing it, until the left button is released:
/// whatever events come in between, wherever they put the cursor, every
/// motion of the mouse does what the first one did.
pub proof fn law_gesture_is_sticky(s: Interaction, events: Seq<Event>)
    requires
        s.gesture == Gesture::Moving || s.gesture == Gesture::Resizing,
        forall|k: int| 0 <= k < events.len() ==> !is_left_release(#[trigger] events[k]),
    ensures
        s.run(events).gesture == s.gesture,
        forall|k: int|
            0 <= k < events.len() && (#[trigger] events[k]) is MouseMotion ==> {
                let action = s.run(events.take(k)).next(events[k]).1;
                &&& action is MoveWindow <==> s.gesture == Gesture::Moving
                &&& action is ResizeWindow <==> s.gesture == Gesture::Resizing
            },
    decreases events.len(),
{
    if events.len() > 0 {
        let shorter = events.drop_last();
        law_gesture_is_sticky(s, shorter);
        assert(!is_left_release(events[events.len() - 1]));
        assert forall|k: int| 0 <= k < events.len() && (#[trigger] events[k]) is MouseMotion implies {
            let action = s.run(events.take(k)).next(events[k]).1;
            &&& action is MoveWindow <==> s.gesture == Gesture::Moving
            &&& action is ResizeWindow <==> s.gesture == Gesture::Resizing
        } by {
            if k < events.len() - 1 {
                assert(shorter.take(k) =~= events.take(k));
                assert(shorter[k] == events[k]);
            } else {
                assert(events.take(k) =~= shorter);
            }
        }
    }
}

/// A report of where the cursor is never moves or resizes the window, and
/// leaves the gesture as it is.
pub proof fn law_cursor_report_only_records(s: Interaction, position: CursorPosition)
    ensures
        s.next(Event::CursorMoved { position }) == (
            Interaction { gesture: s.gesture, cursor: position },
            Action::Nothing,
        ),
{
}

} // verus!
