//! Plain-value events: what the component and frame logic reads of an
//! incoming window-system event.

use vstd::prelude::*;

verus! {

/// A size in physical pixels.
#[derive(Clone, Copy, Debug, PartialEq, Eq, Structural)]
pub struct PhysicalSize {
    pub width: u32,
    pub height: u32,
}

/// A position in window pixel space: origin at the top-left corner, y down.
#[derive(Clone, Copy, Debug, PartialEq, Eq, Structural)]
pub struct PhysicalPosition {
    pub x: i32,
    pub y: i32,
}

#[derive(Clone, Copy, Debug, PartialEq, Eq, Structural)]
pub enum ElementState {
    Pressed,
    Released,
}

#[derive(Clone, Copy, Debug, PartialEq, Eq, Structural)]
pub enum MouseButton {
    Left,
    Right,
    Middle,
    Other(u16),
}

/// The keys the event loops tell apart.
#[derive(Clone, Copy, Debug, PartialEq, Eq, Structural)]
pub enum VirtualKeyCode {
    Escape,
    Other,
}

/// An event addressed to one window.
#[derive(Clone, Copy, Debug, PartialEq, Eq, Structural)]
pub enum WindowEvent {
    CloseRequested,
    Resized(PhysicalSize),
    ScaleFactorChanged { new_inner_size: PhysicalSize },
    CursorMoved { position: PhysicalPosition },
    MouseInput { state: ElementState, button: MouseButton },
    KeyboardInput { state: ElementState, virtual_keycode: Option<VirtualKeyCode> },
    Other,
}

/// One event of the event loop. `own_window` says whether a window event was
/// addressed to the window that the GUI runs in.
#[derive(Clone, Copy, Debug, PartialEq, Eq, Structural)]
pub enum Event {
    WindowEvent { own_window: bool, event: WindowEvent },
    MainEventsCleared,
    RedrawRequested,
    Other,
}

/// What the event loop does once an event has been handled.
#[derive(Clone, Copy, Debug, PartialEq, Eq, Structural)]
pub enum ControlFlow {
    /// Sleep until the next event.
    Wait,
    /// Sleep until the next event, but no longer than this many milliseconds.
    WaitUntil { millis: u64 },
    /// Leave the loop.
    Exit,
}

impl PhysicalSize {
    pub fn new(width: u32, height: u32) -> (size: Self)
        ensures
            size == (PhysicalSize { width, height }),
    {
        PhysicalSize { width, height }
    }

    /// A size is degenerate when it encloses no pixel.
    pub open spec fn spec_is_degenerate(&self) -> bool {
        self.width == 0 || self.height == 0
    }

    pub fn is_degenerate(&self) -> (b: bool)
        ensures
            b == self.spec_is_degenerate(),
    {
        self.width == 0 || self.height == 0
    }
}

impl PhysicalPosition {
    pub fn new(x: i32, y: i32) -> (position: Self)
        ensures
            position == (PhysicalPosition { x, y }),
    {
        PhysicalPosition { x, y }
    }
}

impl Event {
    /// The cursor position that this event reports, if it is a cursor move
    /// inside the GUI's own window.
    pub open spec fn spec_cursor_position(&self) -> Option<PhysicalPosition> {
        match *self {
            Event::WindowEvent {
                own_window: true,
                event: WindowEvent::CursorMoved { position },
            } => Some(position),
            _ => None,
        }
    }

    pub fn cursor_position(&self) -> (position: Option<PhysicalPosition>)
        ensures
            position == self.spec_cursor_position(),
    {
        match *self {
            Event::WindowEvent {
                own_window: true,
                event: WindowEvent::CursorMoved { position },
            } => Some(position),
            _ => None,
        }
    }

    /// The new inner size that this event reports, if it is a resize or a
    /// scale-factor change of the GUI's own window.
    pub open spec fn spec_new_size(&self) -> Option<PhysicalSize> {
        match *self {
            Event::WindowEvent { own_window: true, event: WindowEvent::Resized(size) } => Some(
                size,
            ),
            Event::WindowEvent {
                own_window: true,
                event: WindowEvent::ScaleFactorChanged { new_inner_size },
            } => Some(new_inner_size),
            _ => None,
        }
    }

    pub fn new_size(&self) -> (size: Option<PhysicalSize>)
        ensures
            size == self.spec_new_size(),
    {
        match *self {
            Event::WindowEvent { own_window: true, event: WindowEvent::Resized(size) } => Some(
                size,
            ),
            Event::WindowEvent {
                own_window: true,
                event: WindowEvent::ScaleFactorChanged { new_inner_size },
            } => Some(new_inner_size),
            _ => None,
        }
    }

    /// Whether this event says that the escape key went down in the GUI's own
    /// window.
    pub open spec fn spec_is_escape_press(&self) -> bool {
        *self == (Event::WindowEvent {
            own_window: true,
            event: WindowEvent::KeyboardInput {
                state: ElementState::Pressed,
                virtual_keycode: Some(VirtualKeyCode::Escape),
            },
        })
    }

    pub fn is_escape_press(&self) -> (b: bool)
        ensures
            b == self.spec_is_escape_press(),
    {
        match *self {
            Event::WindowEvent {
                own_window: true,
                event: WindowEvent::KeyboardInput {
                    state: ElementState::Pressed,
                    virtual_keycode: Some(VirtualKeyCode::Escape),
                },
            } => true,
            _ => false,
        }
    }

    /// Whether this event asks the GUI's own window to close.
    pub open spec fn spec_is_close_request(&self) -> bool {
        *self == (Event::WindowEvent { own_window: true, event: WindowEvent::CloseRequested })
    }

    pub fn is_close_request(&self) -> (b: bool)
        ensures
            b == self.spec_is_close_request(),
    {
        match *self {
            Event::WindowEvent { own_window: true, event: WindowEvent::CloseRequested } => true,
            _ => false,
        }
    }
}

} // verus!
