//! The options of a window, the builder that collects them, and the decisions
//! of the plain window loop.

use vstd::prelude::*;
use crate::event::{ControlFlow, Event, PhysicalSize};

verus! {

#[derive(Clone, Copy, Debug, PartialEq, Eq, Structural)]
pub enum ScreenMode {
    Fullscreen,
    Borderless,
    Windowed,
}

/// How frames are handed to the display.
#[derive(Clone, Copy, Debug, PartialEq, Eq, Structural)]
pub enum PresentMode {
    /// Wait for the vertical blank.
    Fifo,
    /// Replace the waiting frame.
    Mailbox,
}

/// Where the window goes on the screen.
#[derive(Clone, Copy, Debug, PartialEq, Eq, Structural)]
pub enum Placement {
    /// The whole monitor, in a video mode of its own.
    Exclusive,
    /// The whole monitor, as a window without a border.
    Borderless,
    /// A window with this logical inner size.
    Sized { width: u32, height: u32 },
}

/// The options that a builder holds: its view.
pub struct WindowOptions {
    pub resolution: (u32, u32),
    pub title: Seq<char>,
    pub vsync: bool,
    pub screen_mode: ScreenMode,
    pub resizeable: bool,
    pub decorations: bool,
}

/// Collects the options of a window.
#[derive(Debug)]
pub struct WindowBuilder {
    resolution: (u32, u32),
    title: String,
    vsync: bool,
    screen_mode: ScreenMode,
    resizeable: bool,
    decorations: bool,
}

/// Everything that is needed to open the window.
#[derive(Debug)]
pub struct WindowConfig {
    pub title: String,
    pub placement: Placement,
    pub resizable: bool,
    pub decorations: bool,
    pub present_mode: PresentMode,
}

/// What the owner of the window has to do after an event of the plain window
/// loop.
#[derive(Clone, Copy, Debug, PartialEq, Eq, Structural)]
pub enum WindowAction {
    Idle,
    /// Pass the new size to the renderer.
    Resize(PhysicalSize),
    /// Ask the window for a redraw.
    RequestRedraw,
    /// Draw a frame.
    Render,
}

/// The outcome of one event of the plain window loop.
#[derive(Clone, Copy, Debug, PartialEq, Eq, Structural)]
pub struct WindowStep {
    pub control_flow: ControlFlow,
    pub action: WindowAction,
}

impl View for WindowBuilder {
    type V = WindowOptions;

    closed spec fn view(&self) -> WindowOptions {
        WindowOptions {
            resolution: self.resolution,
            title: self.title@,
            vsync: self.vsync,
            screen_mode: self.screen_mode,
            resizeable: self.resizeable,
            decorations: self.decorations,
        }
    }
}

impl WindowOptions {
    /// The options of a builder that nothing has been set on.
    pub open spec fn spec_default() -> WindowOptions {
        WindowOptions {
            resolution: (800, 600),
            title: "Rusty GUI"@,
            vsync: true,
            screen_mode: ScreenMode::Windowed,
            resizeable: true,
            decorations: true,
        }
    }

    /// Where a window with these options goes: only a plain window takes the
    /// resolution.
    pub open spec fn spec_placement(&self) -> Placement {
        match self.screen_mode {
            ScreenMode::Fullscreen => Placement::Exclusive,
            ScreenMode::Borderless => Placement::Borderless,
            ScreenMode::Windowed => Placement::Sized {
                width: self.resolution.0,
                height: self.resolution.1,
            },
        }
    }

    /// With vsync frames wait for the vertical blank; without, the newest
    /// frame replaces the waiting one.
    pub open spec fn spec_present_mode(&self) -> PresentMode {
        if self.vsync {
            PresentMode::Fifo
        } else {
            PresentMode::Mailbox
        }
    }
}

impl Default for WindowBuilder {
    fn default() -> (builder: WindowBuilder)
        ensures
            builder@ == WindowOptions::spec_default(),
    {
        WindowBuilder {
            resolution: (800, 600),
            title: "Rusty GUI".to_owned(),
            vsync: true,
            screen_mode: ScreenMode::Windowed,
            resizeable: true,
            decorations: true,
        }
    }
}

impl WindowBuilder {
    /// A builder with the default options.
    pub fn new() -> (builder: Self)
        ensures
            builder@ == WindowOptions::spec_default(),
    {
        WindowBuilder {
            resolution: (800, 600),
            title: "Rusty GUI".to_owned(),
            vsync: true,
            screen_mode: ScreenMode::Windowed,
            resizeable: true,
            decorations: true,
        }
    }

    pub fn set_resolution(&mut self, resolution: (u32, u32)) -> (builder: &mut Self)
        ensures
            builder@ == (WindowOptions { resolution, ..old(self)@ }),
            *final(self) == *final(builder),
    {
        self.resolution = resolution;
        self
    }

    pub fn set_vsync(&mut self, vsync_enabled: bool) -> (builder: &mut Self)
        ensures
            builder@ == (WindowOptions { vsync: vsync_enabled, ..old(self)@ }),
            *final(self) == *final(builder),
    {
        self.vsync = vsync_enabled;
        self
    }

    pub fn set_title(&mut self, title: &str) -> (builder: &mut Self)
        ensures
            builder@ == (WindowOptions { title: title@, ..old(self)@ }),
            *final(self) == *final(builder),
    {
        self.title = title.to_owned();
        self
    }

    pub fn set_screenmode(&mut self, screen_mode: ScreenMode) -> (builder: &mut Self)
        ensures
            builder@ == (WindowOptions { screen_mode, ..old(self)@ }),
            *final(self) == *final(builder),
    {
        self.screen_mode = screen_mode;
        self
    }

    pub fn set_decorations(&mut self, decorations_enabled: bool) -> (builder: &mut Self)
        ensures
            builder@ == (WindowOptions { decorations: decorations_enabled, ..old(self)@ }),
            *final(self) == *final(builder),
    {
        self.decorations = decorations_enabled;
        self
    }

    pub fn set_resizeable(&mut self, resizable: bool) -> (builder: &mut Self)
        ensures
            builder@ == (WindowOptions { resizeable: resizable, ..old(self)@ }),
            *final(self) == *final(builder),
    {
        self.resizeable = resizable;
        self
    }

    pub fn resolution(&self) -> (resolution: (u32, u32))
        ensures
            resolution == self@.resolution,
    {
        self.resolution
    }

    pub fn title(&self) -> (title: &str)
        ensures
            title@ == self@.title,
    {
        self.title.as_str()
    }

    pub fn vsync(&self) -> (vsync: bool)
        ensures
            vsync == self@.vsync,
    {
        self.vsync
    }

    pub fn screen_mode(&self) -> (screen_mode: ScreenMode)
        ensures
            screen_mode == self@.screen_mode,
    {
        self.screen_mode
    }

    pub fn resizeable(&self) -> (resizeable: bool)
        ensures
            resizeable == self@.resizeable,
    {
        self.resizeable
    }

    pub fn decorations(&self) -> (decorations: bool)
        ensures
            decorations == self@.decorations,
    {
        self.decorations
    }

    /// Settles what window to open. The builder is left as it is.
    pub fn build(&mut self) -> (config: WindowConfig)
        ensures
            *final(self) == *old(self),
            config.title@ == old(self)@.title,
            config.placement == old(self)@.spec_placement(),
            config.resizable == old(self)@.resizeable,
            config.decorations == old(self)@.decorations,
            config.present_mode == old(self)@.spec_present_mode(),
    {
        let present_mode = if self.vsync {
            PresentMode::Fifo
        } else {
            PresentMode::Mailbox
        };
        let placement = match self.screen_mode {
            ScreenMode::Fullscreen => Placement::Exclusive,
            ScreenMode::Windowed => Placement::Sized {
                width: self.resolution.0,
                height: self.resolution.1,
            },
            ScreenMode::Borderless => Placement::Borderless,
        };
        WindowConfig {
            title: self.title.clone(),
            placement,
            resizable: self.resizeable,
            decorations: self.decorations,
            present_mode,
        }
    }
}

/// What the plain window loop does with `event`: it leaves on a close request
/// and when the escape key goes down, and else sleeps until the next event.
pub open spec fn spec_window_control_flow(event: Event) -> ControlFlow {
    if event.spec_is_close_request() || event.spec_is_escape_press() {
        ControlFlow::Exit
    } else {
        ControlFlow::Wait
    }
}

/// What the owner of the window has to do with `event` in the plain window
/// loop: pass a new size on, ask for a redraw when all events are cleared,
/// draw on a redraw request.
pub open spec fn spec_window_action(event: Event) -> WindowAction {
    match event.spec_new_size() {
        Some(size) => WindowAction::Resize(size),
        None => match event {
            Event::MainEventsCleared => WindowAction::RequestRedraw,
            Event::RedrawRequested => WindowAction::Render,
            _ => WindowAction::Idle,
        },
    }
}

/// One turn of the plain window loop, which knows no components and never
/// holds back a frame.
pub fn window_loop_step(event: &Event) -> (step: WindowStep)
    ensures
        step.control_flow == spec_window_control_flow(*event),
        step.action == spec_window_action(*event),
{
    let control_flow = if event.is_close_request() || event.is_escape_press() {
        ControlFlow::Exit
    } else {
        ControlFlow::Wait
    };
    let action = match event.new_size() {
        Some(size) => WindowAction::Resize(size),
        None => match *event {
            Event::MainEventsCleared => WindowAction::RequestRedraw,
            Event::RedrawRequested => WindowAction::Render,
            _ => WindowAction::Idle,
        },
    };
    WindowStep { control_flow, action }
}

} // verus!
