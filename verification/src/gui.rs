//! The GUI: a renderer with the colour that frames are cleared with, and the
//! decisions of the event loop. The loop itself belongs to whoever owns the
//! window: for each event it calls `dispatch_event`, then the user's own
//! handler, then `handle_event`, and carries out what comes back.

use vstd::prelude::*;
use crate::components::base_components::{
    Color,
    EventGUIComponent,
    GUIComponent,
    TextGUIComponent,
};
use crate::event::{ControlFlow, Event, PhysicalSize};
use crate::layout::Layout;
use crate::rendering::render;
use crate::rendering::render::{Frame, Renderer};

verus! {

/// The longest that the loop sleeps without an event, in milliseconds.
pub const REDRAW_INTERVAL_MILLIS: u64 = 250;

/// What the owner of the window has to do after an event.
#[derive(Clone, Debug, PartialEq, Eq)]
pub enum LoopAction {
    /// Nothing.
    Idle,
    /// Build the swap chain anew, with the size that the renderer now holds.
    RecreateSwapChain,
    /// Ask the window for a redraw.
    RequestRedraw,
    /// Draw this frame.
    Present(Frame),
}

/// The outcome of one event.
#[derive(Clone, Debug, PartialEq, Eq)]
pub struct Step {
    pub control_flow: ControlFlow,
    pub action: LoopAction,
}

/// A renderer, the colour that its frames are cleared with, and whether the
/// window is minimized.
pub struct GUI<V, E, T> {
    pub renderer: Renderer<V, E, T>,
    pub clear_color: Color,
    /// Whether the window has no area at present. Nothing is dispatched and
    /// nothing is drawn while it is so.
    pub minimized: bool,
}

impl<V: GUIComponent, E: EventGUIComponent, T: TextGUIComponent> GUI<V, E, T> {
    /// Whether the GUI is minimized once it has handled `event`: a resize
    /// decides it anew, any other event leaves it.
    pub open spec fn spec_minimized_after(&self, event: Event) -> bool {
        match event.spec_new_size() {
            Some(size) => size.spec_is_degenerate(),
            None => self.minimized,
        }
    }

    /// Whether `event` makes the GUI ask for a redraw.
    pub open spec fn spec_requests_redraw(&self, event: Event) -> bool {
        event == Event::MainEventsCleared && !self.minimized
    }

    /// Whether `event` makes the GUI draw a frame.
    pub open spec fn spec_presents(&self, event: Event) -> bool {
        event == Event::RedrawRequested && !self.minimized
    }

    /// What the loop does after `event`: it leaves on a close request, and
    /// else sleeps until the next event or the next tick.
    pub open spec fn spec_control_flow(event: Event) -> ControlFlow {
        if event.spec_is_close_request() {
            ControlFlow::Exit
        } else {
            ControlFlow::WaitUntil { millis: REDRAW_INTERVAL_MILLIS }
        }
    }

    pub fn new(renderer: Renderer<V, E, T>, clear_color: Color) -> (gui: Self)
        ensures
            gui.renderer == renderer,
            gui.clear_color == clear_color,
            !gui.minimized,
    {
        GUI { renderer, clear_color, minimized: false }
    }

    /// Replaces the layout that is drawn.
    pub fn set_render_layout(&mut self, layout: Layout<V, E, T>)
        ensures
            final(self).renderer.layout == layout,
            final(self).renderer.sc_desc == old(self).renderer.sc_desc,
            final(self).renderer.size == old(self).renderer.size,
            final(self).renderer.camera == old(self).renderer.camera,
            final(self).clear_color == old(self).clear_color,
            final(self).minimized == old(self).minimized,
    {
        self.renderer.layout = layout;
    }

    /// The layout that is drawn, to be changed in place.
    pub fn borrow_render_layout(&mut self) -> (layout: &mut Layout<V, E, T>)
        ensures
            *layout == old(self).renderer.layout,
            final(self).renderer.layout == *final(layout),
            final(self).renderer.sc_desc == old(self).renderer.sc_desc,
            final(self).renderer.size == old(self).renderer.size,
            final(self).renderer.camera == old(self).renderer.camera,
            final(self).clear_color == old(self).clear_color,
            final(self).minimized == old(self).minimized,
    {
        &mut self.renderer.layout
    }

    pub fn borrow_renderer(&self) -> (renderer: &Renderer<V, E, T>)
        ensures
            *renderer == self.renderer,
    {
        &self.renderer
    }

    /// Hands `event` to every event component, in the order of the registry.
    /// `window` is the inner size of the window. A minimized GUI hands
    /// nothing on.
    pub fn dispatch_event(&mut self, event: &Event, window: PhysicalSize)
        ensures
            final(self).renderer.layout.event_components.len() == old(
                self,
            ).renderer.layout.event_components.len(),
            forall|i: int|
                0 <= i < old(self).renderer.layout.event_components.len() ==> *(
                #[trigger] final(self).renderer.layout.event_components[i]) == if old(
                    self,
                ).minimized {
                    *old(self).renderer.layout.event_components[i]
                } else {
                    (*old(self).renderer.layout.event_components[i]).spec_handle_event(
                        *event,
                        window,
                    )
                },
            final(self).renderer.layout.components@ == old(self).renderer.layout.components@,
            final(self).renderer.layout.text_components@ == old(
                self,
            ).renderer.layout.text_components@,
            final(self).renderer.sc_desc == old(self).renderer.sc_desc,
            final(self).renderer.size == old(self).renderer.size,
            final(self).renderer.camera == old(self).renderer.camera,
            final(self).clear_color == old(self).clear_color,
            final(self).minimized == old(self).minimized,
    {
        if !self.minimized {
            let count = self.renderer.layout.event_components.len();
            let mut i: usize = 0;
            while i < count
                invariant
                    i <= count,
                    count == self.renderer.layout.event_components.len(),
                    count == old(self).renderer.layout.event_components.len(),
                    forall|k: int|
                        0 <= k < i ==> *(#[trigger] self.renderer.layout.event_components[k]) == (*old(
                            self,
                        ).renderer.layout.event_components[k]).spec_handle_event(*event, window),
                    forall|k: int|
                        i <= k < count ==> (#[trigger] self.renderer.layout.event_components[k])
                            == old(self).renderer.layout.event_components[k],
                    self.renderer.layout.components@ == old(self).renderer.layout.components@,
                    self.renderer.layout.text_components@ == old(
                        self,
                    ).renderer.layout.text_components@,
                    self.renderer.sc_desc == old(self).renderer.sc_desc,
                    self.renderer.size == old(self).renderer.size,
                    self.renderer.camera == old(self).renderer.camera,
                    self.clear_color == old(self).clear_color,
                    self.minimized == old(self).minimized,
                decreases count - i,
            {
                self.renderer.layout.event_components[i].handle_event_callback(event, window);
                i += 1;
            }
        }
    }

    /// Whether `handle_event` may be called with `event`: a frame is drawn only
    /// from a layout whose bound text ids all name a text component.
    pub open spec fn spec_can_handle(&self, event: Event) -> bool {
        self.spec_presents(event) ==> self.renderer.layout.spec_bindings_valid()
    }

    /// Whether `step` and `after` are what the framework makes of this GUI and
    /// `event`.
    ///
    /// * A close request ends the loop.
    /// * A resize is passed to the renderer. A size without area minimizes the
    ///   GUI; any other size ends that and has the swap chain built anew.
    /// * When all events are cleared, a redraw is asked for, unless the GUI is
    ///   minimized.
    /// * A redraw request brings bound text in line with its owners and hands
    ///   out the frame, unless the GUI is minimized.
    /// * Nothing else happens.
    pub open spec fn spec_handled(self, event: Event, step: Step, after: Self) -> bool {
        &&& step.control_flow == Self::spec_control_flow(event)
        &&& after.minimized == self.spec_minimized_after(event)
        &&& after.clear_color == self.clear_color
        &&& after.renderer.layout.components@ == self.renderer.layout.components@
        &&& after.renderer.layout.event_components@ == self.renderer.layout.event_components@
        &&& match event.spec_new_size() {
            Some(size) => {
                &&& after.renderer.size == size
                &&& after.renderer.sc_desc == if size.spec_is_degenerate() {
                    self.renderer.sc_desc
                } else {
                    size
                }
                &&& step.action == if size.spec_is_degenerate() {
                    LoopAction::Idle
                } else {
                    LoopAction::RecreateSwapChain
                }
            },
            None => {
                &&& after.renderer.size == self.renderer.size
                &&& after.renderer.sc_desc == self.renderer.sc_desc
                &&& if self.spec_requests_redraw(event) {
                    step.action == LoopAction::RequestRedraw
                } else if self.spec_presents(event) {
                    step.action matches LoopAction::Present(frame) && frame.clear_color
                        == self.clear_color && frame.projection == render::Projection::spec_ortho(
                        self.renderer.sc_desc,
                    ) && frame.commands@ == render::frame_commands(after.renderer.layout)
                } else {
                    step.action == LoopAction::Idle
                }
            },
        }
        &&& if self.spec_presents(event) {
            &&& after.renderer.layout.text_components@ == render::apply_bindings(
                self.renderer.layout.text_components@,
                self.renderer.layout.spec_bindings(),
                self.renderer.sc_desc,
            )
            &&& after.renderer.camera == (render::Camera {
                width: self.renderer.sc_desc.width,
                height: self.renderer.sc_desc.height,
                projection: render::Projection::spec_ortho(self.renderer.sc_desc),
            })
        } else {
            &&& after.renderer.layout.text_components@ == self.renderer.layout.text_components@
            &&& after.renderer.camera == self.renderer.camera
        }
    }

    pub fn can_handle(&self, event: &Event) -> (can: bool)
        ensures
            can == self.spec_can_handle(*event),
    {
        match *event {
            Event::RedrawRequested => self.minimized || self.renderer.layout.bindings_valid(),
            _ => true,
        }
    }

    /// What the framework itself does with `event`, after the components and
    /// the user's handler have seen it: see `spec_handled`.
    pub fn handle_event(&mut self, event: &Event) -> (step: Step)
        requires
            old(self).spec_can_handle(*event),
        ensures
            old(self).spec_handled(*event, step, *final(self)),
    {
        let control_flow = if event.is_close_request() {
            ControlFlow::Exit
        } else {
            ControlFlow::WaitUntil { millis: REDRAW_INTERVAL_MILLIS }
        };
        let action = match event.new_size() {
            Some(size) => {
                let rebuild = self.renderer.resize(size);
                self.minimized = size.is_degenerate();
                if rebuild {
                    LoopAction::RecreateSwapChain
                } else {
                    LoopAction::Idle
                }
            },
            None => {
                match *event {
                    Event::MainEventsCleared => {
                        if !self.minimized {
                            LoopAction::RequestRedraw
                        } else {
                            LoopAction::Idle
                        }
                    },
                    Event::RedrawRequested => {
                        if !self.minimized {
                            self.renderer.prepass();
                            LoopAction::Present(self.renderer.render(self.clear_color))
                        } else {
                            LoopAction::Idle
                        }
                    },
                    _ => LoopAction::Idle,
                }
            },
        };
        Step { control_flow, action }
    }

    /// `handle_event`, where it may be called. Where a frame is due and a
    /// component is bound to a text component that the layout does not hold,
    /// nothing is done and nothing is returned.
    pub fn try_handle_event(&mut self, event: &Event) -> (step: Option<Step>)
        ensures
            match step {
                Some(step) => old(self).spec_can_handle(*event) && old(self).spec_handled(
                    *event,
                    step,
                    *final(self),
                ),
                None => !old(self).spec_can_handle(*event) && *final(self) == *old(self),
            },
    {
        if self.can_handle(event) {
            Some(self.handle_event(event))
        } else {
            None
        }
    }
}

/// A resize to a size without area stops all drawing: the redraw request that
/// follows it yields no frame. A resize to any other size brings drawing back:
/// the redraw request that follows it yields a frame.
pub proof fn lemma_degenerate_resize_suppresses_drawing<
    V: GUIComponent,
    E: EventGUIComponent,
    T: TextGUIComponent,
>(
    before: GUI<V, E, T>,
    resize: Event,
    size: PhysicalSize,
    resized: Step,
    between: GUI<V, E, T>,
    redrawn: Step,
    after: GUI<V, E, T>,
)
    requires
        resize.spec_new_size() == Some(size),
        before.spec_handled(resize, resized, between),
        between.spec_handled(Event::RedrawRequested, redrawn, after),
    ensures
        size.spec_is_degenerate() ==> between.minimized && redrawn.action == LoopAction::Idle,
        !size.spec_is_degenerate() ==> !between.minimized && redrawn.action is Present,
        size == (PhysicalSize { width: 0, height: 0 }) ==> redrawn.action == LoopAction::Idle,
{
}

/// Only a resize changes whether the GUI is minimized, and a minimized GUI
/// neither asks for a redraw nor draws a frame.
pub proof fn lemma_minimized_until_resized<
    V: GUIComponent,
    E: EventGUIComponent,
    T: TextGUIComponent,
>(before: GUI<V, E, T>, event: Event, step: Step, after: GUI<V, E, T>)
    requires
        event.spec_new_size() is None,
        before.spec_handled(event, step, after),
    ensures
        after.minimized == before.minimized,
        before.minimized ==> step.action == LoopAction::Idle,
{
}

} // verus!
