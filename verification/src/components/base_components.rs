//! The three kinds of component and the two components that come with the
//! library: the `Label`, which shows text, and the `Button`, which draws a box
//! and reacts to events.
//!
//! A kind is a trait. Each trait pairs its methods with spec functions that
//! say exactly what the method returns or does, so that layouts and renderers
//! are verified once for every component that will ever be written.

use vstd::prelude::*;
use crate::event::{Event, PhysicalSize};
use crate::rendering::coords;
use crate::rendering::coords::{centered_to_screen, CenteredPosition, ScreenPosition};
use crate::rendering::render::Renderer;
use crate::rendering::transform::Transform;

verus! {

#[derive(Clone, Copy, Debug, PartialEq, Eq, Structural)]
pub enum VerticalAlign {
    Top,
    Center,
    Bottom,
}

#[derive(Clone, Copy, Debug, PartialEq, Eq, Structural)]
pub enum HorizontalAlign {
    Left,
    Center,
    Right,
}

/// A colour, one byte per channel.
#[derive(Clone, Copy, Debug, PartialEq, Eq, Structural)]
pub struct Color {
    pub r: u8,
    pub g: u8,
    pub b: u8,
    pub a: u8,
}

/// A half-open range of indices.
#[derive(Clone, Copy, Debug, PartialEq, Eq, Structural)]
pub struct Span {
    pub start: u32,
    pub end: u32,
}

/// One draw of geometry: a range of vertices and a range of instances.
#[derive(Clone, Copy, Debug, PartialEq, Eq, Structural)]
pub struct DrawCall {
    pub vertices: Span,
    pub instances: Span,
}

/// One piece of text, ready to be queued for the glyph pass.
#[derive(Clone, Debug, PartialEq, Eq)]
pub struct TextSection {
    pub screen_position: ScreenPosition,
    pub text: String,
    pub scale: u32,
    pub color: Color,
    pub v_align: VerticalAlign,
    pub h_align: HorizontalAlign,
}

/// The failure of a typed access: the component is not of the type asked for.
#[derive(Clone, Copy, Debug, PartialEq, Eq, Structural)]
pub struct DowncastError;

impl Color {
    pub open spec fn spec_black() -> Color {
        Color { r: 0, g: 0, b: 0, a: 255 }
    }

    pub open spec fn spec_white() -> Color {
        Color { r: 255, g: 255, b: 255, a: 255 }
    }

    pub fn black() -> (c: Color)
        ensures
            c == Color::spec_black(),
    {
        Color { r: 0, g: 0, b: 0, a: 255 }
    }

    pub fn white() -> (c: Color)
        ensures
            c == Color::spec_white(),
    {
        Color { r: 255, g: 255, b: 255, a: 255 }
    }
}

impl DrawCall {
    /// The two triangles of a quad, drawn once.
    pub open spec fn spec_quad() -> DrawCall {
        DrawCall { vertices: Span { start: 0, end: 6 }, instances: Span { start: 0, end: 1 } }
    }

    pub fn quad() -> (call: DrawCall)
        ensures
            call == DrawCall::spec_quad(),
    {
        DrawCall { vertices: Span { start: 0, end: 6 }, instances: Span { start: 0, end: 1 } }
    }
}

impl DowncastError {
    pub fn message(&self) -> (text: &'static str)
        ensures
            text@ == "Error, failed to downcast!"@,
    {
        "Error, failed to downcast!"
    }
}

/// A component that draws geometry.
pub trait GUIComponent: Sized {
    spec fn spec_enabled(&self) -> bool;

    /// The index of the text component that follows this one, if any.
    spec fn spec_text_id(&self) -> Option<usize>;

    /// Where the component sits, in centered device space.
    spec fn spec_pos(&self) -> CenteredPosition;

    /// What the component draws in a frame in which it is enabled.
    spec fn spec_draw_call(&self) -> DrawCall;

    /// The geometry of this frame: none while the component is disabled.
    fn render(&self) -> (call: Option<DrawCall>)
        ensures
            call == if self.spec_enabled() {
                Some(self.spec_draw_call())
            } else {
                None
            },
    ;

    fn is_enabled(&self) -> (enabled: bool)
        ensures
            enabled == self.spec_enabled(),
    ;

    fn get_text_id(&self) -> (id: Option<usize>)
        ensures
            id == self.spec_text_id(),
    ;

    fn get_pos(&self) -> (pos: CenteredPosition)
        ensures
            pos == self.spec_pos(),
    ;
}

/// A component that draws geometry and is handed every event.
pub trait EventGUIComponent: GUIComponent {
    /// The component after it has seen `event` in a window of size `window`.
    spec fn spec_handle_event(self, event: Event, window: PhysicalSize) -> Self;

    fn handle_event_callback(&mut self, event: &Event, window: PhysicalSize)
        ensures
            *final(self) == old(self).spec_handle_event(*event, window),
    ;
}

/// A component that shows text.
pub trait TextGUIComponent: Sized {
    spec fn spec_enabled(&self) -> bool;

    /// Where the text sits, in window pixel space.
    spec fn spec_pos(&self) -> ScreenPosition;

    /// What the component queues in a frame in which it is enabled.
    spec fn spec_section(&self) -> TextSection;

    /// The component moved to `pos`, in window pixel space.
    spec fn spec_set_pos(self, pos: ScreenPosition) -> Self;

    /// The component switched on or off.
    spec fn spec_set_enabled(self, enabled: bool) -> Self;

    /// The text of this frame: none while the component is disabled.
    fn render_text(&self) -> (section: Option<TextSection>)
        ensures
            section == if self.spec_enabled() {
                Some(self.spec_section())
            } else {
                None
            },
    ;

    /// Moves the text to where its owner is; `owner` is in centered device
    /// space.
    fn set_pos(&mut self, owner: CenteredPosition, surface: PhysicalSize)
        ensures
            *final(self) == old(self).spec_set_pos(
                coords::spec_centered_to_screen(owner, surface),
            ),
    ;

    fn enable(&mut self)
        ensures
            *final(self) == old(self).spec_set_enabled(true),
    ;

    fn disable(&mut self)
        ensures
            *final(self) == old(self).spec_set_enabled(false),
    ;

    /// Moving changes the position and leaves the switch alone.
    proof fn lemma_set_pos(self, pos: ScreenPosition)
        ensures
            self.spec_set_pos(pos).spec_pos() == pos,
            self.spec_set_pos(pos).spec_enabled() == self.spec_enabled(),
    ;

    /// Switching changes the switch and leaves the position alone.
    proof fn lemma_set_enabled(self, enabled: bool)
        ensures
            self.spec_set_enabled(enabled).spec_enabled() == enabled,
            self.spec_set_enabled(enabled).spec_pos() == self.spec_pos(),
    ;
}

/// What a button asks of its user: given the event, whether the cursor is over
/// the button and whether the button is enabled, say whether it is enabled
/// from now on.
pub trait Callback {
    spec fn spec_call(&self, event: Event, cursor_in_bounds: bool, enabled: bool) -> bool;

    fn call(&self, event: &Event, cursor_in_bounds: bool, enabled: bool) -> (now_enabled: bool)
        ensures
            now_enabled == self.spec_call(*event, cursor_in_bounds, enabled),
    ;
}

/// A typed look at a component: `Some` exactly when the component is a `U`.
pub trait Downcast<U>: Sized {
    /// The `U` that this component is, if it is one.
    spec fn spec_as_type(&self) -> Option<U>;

    /// This component with the `U` inside it replaced.
    spec fn spec_with_type(self, inner: U) -> Self;

    fn as_type(&self) -> (inner: Option<&U>)
        ensures
            match inner {
                Some(u) => self.spec_as_type() == Some(*u),
                None => self.spec_as_type() is None,
            },
    ;

    fn as_type_mut(&mut self) -> (inner: Option<&mut U>)
        ensures
            match inner {
                Some(u) => old(self).spec_as_type() == Some(*u) && *final(self) == old(
                    self,
                ).spec_with_type(*final(u)),
                None => old(self).spec_as_type() is None && *final(self) == *old(self),
            },
    ;
}

/// The callback of a button that leaves everything as it is.
#[derive(Clone, Copy, Debug, PartialEq, Eq, Structural)]
pub struct NoCallback;

impl Callback for NoCallback {
    open spec fn spec_call(&self, event: Event, cursor_in_bounds: bool, enabled: bool) -> bool {
        enabled
    }

    fn call(&self, event: &Event, cursor_in_bounds: bool, enabled: bool) -> (now_enabled: bool) {
        enabled
    }
}

/// Text on the screen, with a size, a position in window pixel space and an
/// alignment.
#[derive(Clone, Debug, PartialEq, Eq)]
pub struct Label {
    pub content: String,
    pub size: u32,
    pub pos: ScreenPosition,
    pub v_align: VerticalAlign,
    pub h_align: HorizontalAlign,
    pub enabled: bool,
}

impl Label {
    /// An enabled label, aligned to the top and to the left.
    pub fn new(content: &str, size: u32, pos: ScreenPosition) -> (label: Self)
        ensures
            label.content@ == content@,
            label.size == size,
            label.pos == pos,
            label.v_align == VerticalAlign::Top,
            label.h_align == HorizontalAlign::Left,
            label.enabled,
    {
        Label {
            content: content.to_owned(),
            size,
            pos,
            v_align: VerticalAlign::Top,
            h_align: HorizontalAlign::Left,
            enabled: true,
        }
    }

    pub fn align_vertical(&mut self, alignment: VerticalAlign)
        ensures
            *final(self) == (Label { v_align: alignment, ..*old(self) }),
    {
        self.v_align = alignment;
    }

    pub fn align_horizontal(&mut self, alignment: HorizontalAlign)
        ensures
            *final(self) == (Label { h_align: alignment, ..*old(self) }),
    {
        self.h_align = alignment;
    }

    pub fn enable(&mut self)
        ensures
            *final(self) == (Label { enabled: true, ..*old(self) }),
    {
        self.enabled = true;
    }

    pub fn disable(&mut self)
        ensures
            *final(self) == (Label { enabled: false, ..*old(self) }),
    {
        self.enabled = false;
    }

    /// Puts the label where a component at `owner`, in centered device space,
    /// is on a surface of size `surface`.
    pub fn follow(&mut self, owner: CenteredPosition, surface: PhysicalSize)
        ensures
            *final(self) == (Label {
                pos: coords::spec_centered_to_screen(owner, surface),
                ..*old(self)
            }),
    {
        self.pos = centered_to_screen(owner, surface);
    }
}

impl TextGUIComponent for Label {
    open spec fn spec_enabled(&self) -> bool {
        self.enabled
    }

    open spec fn spec_pos(&self) -> ScreenPosition {
        self.pos
    }

    open spec fn spec_section(&self) -> TextSection {
        TextSection {
            screen_position: self.pos,
            text: self.content,
            scale: self.size,
            color: Color::spec_black(),
            v_align: self.v_align,
            h_align: self.h_align,
        }
    }

    open spec fn spec_set_pos(self, pos: ScreenPosition) -> Self {
        Label { pos, ..self }
    }

    open spec fn spec_set_enabled(self, enabled: bool) -> Self {
        Label { enabled, ..self }
    }

    fn render_text(&self) -> (section: Option<TextSection>) {
        if self.enabled {
            Some(
                TextSection {
                    screen_position: self.pos,
                    text: self.content.clone(),
                    scale: self.size,
                    color: Color::black(),
                    v_align: self.v_align,
                    h_align: self.h_align,
                },
            )
        } else {
            None
        }
    }

    fn set_pos(&mut self, owner: CenteredPosition, surface: PhysicalSize) {
        self.follow(owner, surface);
    }

    fn enable(&mut self) {
        self.enabled = true;
    }

    fn disable(&mut self) {
        self.enabled = false;
    }

    proof fn lemma_set_pos(self, pos: ScreenPosition) {
    }

    proof fn lemma_set_enabled(self, enabled: bool) {
    }
}

impl Downcast<Label> for Label {
    open spec fn spec_as_type(&self) -> Option<Label> {
        Some(*self)
    }

    open spec fn spec_with_type(self, inner: Label) -> Self {
        inner
    }

    fn as_type(&self) -> (inner: Option<&Label>) {
        Some(self)
    }

    fn as_type_mut(&mut self) -> (inner: Option<&mut Label>) {
        Some(self)
    }
}

/// A box that can be clicked. The cursor is tested against the box spanned by
/// the position and the scale of its transform; what a click does is up to the
/// callback.
pub struct Button<C> {
    pub transform: Transform,
    pub callback: Option<C>,
    pub cursor_in_bounds: bool,
    pub enabled: bool,
    pub attached_text_id: Option<usize>,
}

impl<C: Callback> Button<C> {
    /// Whether the cursor is over the button once the button has seen `event`:
    /// a cursor move decides it anew, any other event leaves it.
    pub open spec fn spec_cursor_after(&self, event: Event, window: PhysicalSize) -> bool {
        match event.spec_cursor_position() {
            Some(position) => self.transform.spec_hit(position, window),
            None => self.cursor_in_bounds,
        }
    }

    /// Whether the button is enabled once it has seen `event`: the callback
    /// decides, and is told where the cursor is now.
    pub open spec fn spec_enabled_after(&self, event: Event, window: PhysicalSize) -> bool {
        match self.callback {
            Some(callback) => callback.spec_call(
                event,
                self.spec_cursor_after(event, window),
                self.enabled,
            ),
            None => self.enabled,
        }
    }

    /// An enabled button with the cursor outside. A label given as `text` is
    /// moved to the button.
    pub fn new<V, E, T>(
        transform: Transform,
        callback: Option<C>,
        renderer: &Renderer<V, E, T>,
        text: Option<&mut Label>,
        attached_text_id: Option<usize>,
    ) -> (button: Self)
        ensures
            button.transform == transform,
            button.callback == callback,
            !button.cursor_in_bounds,
            button.enabled,
            button.attached_text_id == attached_text_id,
            match text {
                Some(label) => *final(label) == (Label {
                    pos: coords::spec_centered_to_screen(
                        transform.spec_anchor(),
                        renderer.sc_desc,
                    ),
                    ..*label
                }),
                None => true,
            },
    {
        match text {
            Some(label) => {
                label.follow(transform.anchor(), renderer.sc_desc);
            },
            None => {},
        }
        Button { transform, callback, cursor_in_bounds: false, enabled: true, attached_text_id }
    }

    pub fn enable(&mut self)
        ensures
            *final(self) == (Button { enabled: true, ..*old(self) }),
    {
        self.enabled = true;
    }

    pub fn disable(&mut self)
        ensures
            *final(self) == (Button { enabled: false, ..*old(self) }),
    {
        self.enabled = false;
    }

    /// Moves a label to the button. The button itself is not changed.
    pub fn set_text<V, E, T>(&mut self, text: Option<&mut Label>, renderer: &Renderer<V, E, T>)
        ensures
            *final(self) == *old(self),
            match text {
                Some(label) => *final(label) == (Label {
                    pos: coords::spec_centered_to_screen(
                        old(self).transform.spec_anchor(),
                        renderer.sc_desc,
                    ),
                    ..*label
                }),
                None => true,
            },
    {
        match text {
            Some(label) => {
                label.follow(self.transform.anchor(), renderer.sc_desc);
            },
            None => {},
        }
    }
}

impl<C: Callback> GUIComponent for Button<C> {
    open spec fn spec_enabled(&self) -> bool {
        self.enabled
    }

    open spec fn spec_text_id(&self) -> Option<usize> {
        self.attached_text_id
    }

    open spec fn spec_pos(&self) -> CenteredPosition {
        self.transform.spec_anchor()
    }

    open spec fn spec_draw_call(&self) -> DrawCall {
        DrawCall::spec_quad()
    }

    fn render(&self) -> (call: Option<DrawCall>) {
        if self.enabled {
            Some(DrawCall::quad())
        } else {
            None
        }
    }

    fn is_enabled(&self) -> (enabled: bool) {
        self.enabled
    }

    fn get_text_id(&self) -> (id: Option<usize>) {
        self.attached_text_id
    }

    fn get_pos(&self) -> (pos: CenteredPosition) {
        self.transform.anchor()
    }
}

impl<C: Callback> EventGUIComponent for Button<C> {
    open spec fn spec_handle_event(self, event: Event, window: PhysicalSize) -> Self {
        Button {
            cursor_in_bounds: self.spec_cursor_after(event, window),
            enabled: self.spec_enabled_after(event, window),
            ..self
        }
    }

    fn handle_event_callback(&mut self, event: &Event, window: PhysicalSize) {
        match event.cursor_position() {
            Some(position) => {
                self.cursor_in_bounds = self.transform.hit_test(position, window);
            },
            None => {},
        }
        let now_enabled = match &self.callback {
            Some(callback) => callback.call(event, self.cursor_in_bounds, self.enabled),
            None => self.enabled,
        };
        self.enabled = now_enabled;
    }
}

impl<C> Downcast<Button<C>> for Button<C> {
    open spec fn spec_as_type(&self) -> Option<Button<C>> {
        Some(*self)
    }

    open spec fn spec_with_type(self, inner: Button<C>) -> Self {
        inner
    }

    fn as_type(&self) -> (inner: Option<&Button<C>>) {
        Some(self)
    }

    fn as_type_mut(&mut self) -> (inner: Option<&mut Button<C>>) {
        Some(self)
    }
}

/// The hit box of a disabled button is tested like that of an enabled one: a
/// cursor move decides anew whether the cursor is over the button, whatever
/// the switch and the callback say.
pub proof fn lemma_disabled_button_is_hit_tested<C: Callback>(
    button: Button<C>,
    event: Event,
    window: PhysicalSize,
)
    requires
        !button.enabled,
        event.spec_cursor_position() is Some,
    ensures
        button.spec_handle_event(event, window).cursor_in_bounds == button.transform.spec_hit(
            event.spec_cursor_position().unwrap(),
            window,
        ),
{
}

/// After a cursor move the cursor counts as over the button exactly when, in
/// centered device space and on both axes, it is closer to the position of the
/// button than half its scale.
pub proof fn lemma_cursor_in_bounds_iff_inside<C: Callback>(
    button: Button<C>,
    position: crate::event::PhysicalPosition,
    window: PhysicalSize,
)
    ensures
        ({
            let event = Event::WindowEvent {
                own_window: true,
                event: crate::event::WindowEvent::CursorMoved { position },
            };
            let centered = coords::spec_window_to_centered(position, window);
            let t = button.transform;
            button.spec_handle_event(event, window).cursor_in_bounds <==> (2
                * crate::rendering::transform::abs_diff(centered.0, t.position.x as int)
                < t.scale.x && 2 * crate::rendering::transform::abs_diff(
                centered.1,
                t.position.y as int,
            ) < t.scale.y)
        }),
{
}

} // verus!
