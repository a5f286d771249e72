use rusty_gui::components::{
    Button, Color, Downcast, DowncastError, DrawCall, GUIComponent,
    HorizontalAlign, Label, NoCallback, TextGUIComponent, TextSection, VerticalAlign,
};
use rusty_gui::event::PhysicalSize;
use rusty_gui::layout::{Binding, Layout};
use rusty_gui::rendering::coords::{centered_to_screen, CenteredPosition, ScreenPosition};
use rusty_gui::rendering::{Quaternion, Renderer, Transform, Vector3};

#[derive(Clone, Debug, PartialEq)]
struct Panel {
    name: u32,
    enabled: bool,
    pos: CenteredPosition,
    text_id: Option<usize>,
}

impl GUIComponent for Panel {
    fn spec_enabled(&self) -> bool {
        self.enabled
    }

    fn spec_text_id(&self) -> Option<usize> {
        self.text_id
    }

    fn spec_pos(&self) -> CenteredPosition {
        self.pos
    }

    fn spec_draw_call(&self) -> DrawCall {
        DrawCall::quad()
    }

    fn render(&self) -> Option<DrawCall> {
        if self.enabled {
            Some(DrawCall::quad())
        } else {
            None
        }
    }

    fn is_enabled(&self) -> bool {
        self.enabled
    }

    fn get_text_id(&self) -> Option<usize> {
        self.text_id
    }

    fn get_pos(&self) -> CenteredPosition {
        self.pos
    }
}

/// A text component that is either a label or a bare marker.
#[derive(Clone, Debug, PartialEq)]
enum AnyText {
    Plain(Label),
    Marker { at: ScreenPosition, shown: bool },
}

impl TextGUIComponent for AnyText {
    fn spec_enabled(&self) -> bool {
        match self {
            AnyText::Plain(label) => label.enabled,
            AnyText::Marker { shown, .. } => *shown,
        }
    }

    fn spec_pos(&self) -> ScreenPosition {
        match self {
            AnyText::Plain(label) => label.pos,
            AnyText::Marker { at, .. } => *at,
        }
    }

    fn spec_section(&self) -> TextSection {
        match self {
            AnyText::Plain(label) => label.spec_section(),
            AnyText::Marker { at, .. } => TextSection {
                screen_position: *at,
                text: String::from("*"),
                scale: 1,
                color: Color::black(),
                v_align: VerticalAlign::Center,
                h_align: HorizontalAlign::Center,
            },
        }
    }

    fn spec_set_pos(self, pos: ScreenPosition) -> Self {
        match self {
            AnyText::Plain(label) => AnyText::Plain(Label { pos, ..label }),
            AnyText::Marker { shown, .. } => AnyText::Marker { at: pos, shown },
        }
    }

    fn spec_set_enabled(self, enabled: bool) -> Self {
        match self {
            AnyText::Plain(label) => AnyText::Plain(Label { enabled, ..label }),
            AnyText::Marker { at, .. } => AnyText::Marker { at, shown: enabled },
        }
    }

    fn render_text(&self) -> Option<TextSection> {
        if self.spec_enabled() {
            Some(self.spec_section())
        } else {
            None
        }
    }

    fn set_pos(&mut self, owner: CenteredPosition, surface: PhysicalSize) {
        let pos = centered_to_screen(owner, surface);
        match self {
            AnyText::Plain(label) => label.pos = pos,
            AnyText::Marker { at, .. } => *at = pos,
        }
    }

    fn enable(&mut self) {
        match self {
            AnyText::Plain(label) => label.enabled = true,
            AnyText::Marker { shown, .. } => *shown = true,
        }
    }

    fn disable(&mut self) {
        match self {
            AnyText::Plain(label) => label.enabled = false,
            AnyText::Marker { shown, .. } => *shown = false,
        }
    }

    fn lemma_set_pos(self, _pos: ScreenPosition) {
    }

    fn lemma_set_enabled(self, _enabled: bool) {
    }
}

impl Downcast<Label> for AnyText {
    fn spec_as_type(&self) -> Option<Label> {
        match self {
            AnyText::Plain(label) => Some(label.clone()),
            AnyText::Marker { .. } => None,
        }
    }

    fn spec_with_type(self, inner: Label) -> Self {
        match self {
            AnyText::Plain(_) => AnyText::Plain(inner),
            other => other,
        }
    }

    fn as_type(&self) -> Option<&Label> {
        match self {
            AnyText::Plain(label) => Some(label),
            AnyText::Marker { .. } => None,
        }
    }

    fn as_type_mut(&mut self) -> Option<&mut Label> {
        match self {
            AnyText::Plain(label) => Some(label),
            AnyText::Marker { .. } => None,
        }
    }
}

type Plain = Layout<Panel, Button<NoCallback>, Label>;

fn panel(name: u32) -> Panel {
    Panel { name, enabled: true, pos: CenteredPosition { x: 0, y: 0 }, text_id: None }
}

fn label(content: &str) -> Label {
    Label::new(content, 12, ScreenPosition { x: 0, y: 0 })
}

fn button(x: i32, y: i32, text_id: Option<usize>) -> Button<NoCallback> {
    let renderer: Renderer<Panel, Button<NoCallback>, Label> = Renderer::new(PhysicalSize::new(800, 600));
    Button::new(
        Transform::new(Vector3::new(x, y, 0), Quaternion::new(0, 0, 0, 0), Vector3::new(75, 75, 10)),
        None,
        &renderer,
        None,
        text_id,
    )
}

#[test]
fn a_new_layout_is_empty() {
    let layout = Plain::new();
    assert!(layout.components.is_empty());
    assert!(layout.event_components.is_empty());
    assert!(layout.text_components.is_empty());
    assert!(layout.bindings().is_empty());
    assert!(layout.bindings_valid());
}

#[test]
fn add_returns_the_length_before_the_call() {
    let mut layout = Plain::new();
    assert_eq!(layout.add_component(Box::new(panel(10))), 0);
    assert_eq!(layout.add_component(Box::new(panel(11))), 1);
    assert_eq!(layout.add_component(Box::new(panel(12))), 2);
    assert_eq!(layout.add_text_component(Box::new(label("a"))), 0);
    assert_eq!(layout.add_text_component(Box::new(label("b"))), 1);
    assert_eq!(layout.add_event_component(Box::new(button(0, 0, None))), 0);
    assert_eq!(layout.add_component(Box::new(panel(13))), 3);
    assert_eq!(layout.components.len(), 4);
    assert_eq!(layout.text_components.len(), 2);
    assert_eq!(layout.event_components.len(), 1);
}

#[test]
fn the_three_registries_are_independent() {
    let mut layout = Plain::new();
    layout.add_text_component(Box::new(label("a")));
    assert!(layout.components.is_empty());
    assert!(layout.event_components.is_empty());
    layout.add_event_component(Box::new(button(0, 0, None)));
    assert!(layout.components.is_empty());
    assert_eq!(layout.text_components.len(), 1);
    layout.remove_text_component_by_id(0);
    assert_eq!(layout.event_components.len(), 1);
    assert!(layout.text_components.is_empty());
}

#[test]
fn borrow_returns_the_component_added_under_that_id() {
    let mut layout = Plain::new();
    let first = layout.add_component(Box::new(panel(10)));
    let second = layout.add_component(Box::new(panel(11)));
    assert_eq!(layout.borrow_component(first).name, 10);
    assert_eq!(layout.borrow_component(second).name, 11);
    let text = layout.add_text_component(Box::new(label("hello")));
    assert_eq!(layout.borrow_text_component(text).content, "hello");
    let event = layout.add_event_component(Box::new(button(5, 6, Some(text))));
    assert_eq!(layout.borrow_event_component(event).attached_text_id, Some(text));
    assert_eq!(layout.borrow_event_component(event).transform.position.x, 5);
}

#[test]
fn remove_moves_every_later_component_one_id_down() {
    let mut layout = Plain::new();
    for name in 0..5 {
        layout.add_component(Box::new(panel(name)));
    }
    layout.remove_component_by_id(1);
    let names: Vec<u32> = layout.components.iter().map(|p| p.name).collect();
    assert_eq!(names, vec![0, 2, 3, 4]);
    layout.remove_component_by_id(3);
    let names: Vec<u32> = layout.components.iter().map(|p| p.name).collect();
    assert_eq!(names, vec![0, 2, 3]);
    layout.remove_component_by_id(0);
    let names: Vec<u32> = layout.components.iter().map(|p| p.name).collect();
    assert_eq!(names, vec![2, 3]);
    assert_eq!(layout.add_component(Box::new(panel(9))), 2);
}

#[test]
fn remove_works_on_event_and_text_components() {
    let mut layout = Plain::new();
    layout.add_event_component(Box::new(button(1, 0, None)));
    layout.add_event_component(Box::new(button(2, 0, None)));
    layout.add_text_component(Box::new(label("a")));
    layout.add_text_component(Box::new(label("b")));
    layout.remove_event_component_by_id(0);
    assert_eq!(layout.event_components.len(), 1);
    assert_eq!(layout.borrow_event_component(0).transform.position.x, 2);
    layout.remove_text_component_by_id(0);
    assert_eq!(layout.text_components.len(), 1);
    assert_eq!(layout.borrow_text_component(0).content, "b");
}

#[test]
fn borrow_mut_changes_the_component_in_place() {
    let mut layout = Plain::new();
    layout.add_component(Box::new(panel(1)));
    layout.add_component(Box::new(panel(2)));
    layout.borrow_component_mut(1).enabled = false;
    assert!(layout.borrow_component(0).enabled);
    assert!(!layout.borrow_component(1).enabled);
    layout.add_text_component(Box::new(label("a")));
    layout.borrow_text_component_mut(0).disable();
    assert!(!layout.borrow_text_component(0).enabled);
    layout.add_event_component(Box::new(button(0, 0, None)));
    layout.borrow_event_component_mut(0).disable();
    assert!(!layout.borrow_event_component(0).enabled);
    **layout.borrow_component_mut(0) = panel(77);
    assert_eq!(layout.borrow_component(0).name, 77);
    assert_eq!(layout.borrow_component(1).name, 2);
}

#[test]
fn as_type_returns_the_concrete_component() {
    let mut layout = Plain::new();
    layout.add_text_component(Box::new(label("typed")));
    layout.add_event_component(Box::new(button(3, 4, Some(0))));
    let text: Result<&Label, DowncastError> = layout.borrow_text_component_as_type(0);
    assert_eq!(text.map(|l| l.content.as_str()), Ok("typed"));
    let event: Result<&Button<NoCallback>, DowncastError> = layout.borrow_event_component_as_type(0);
    assert_eq!(event.map(|b| b.attached_text_id), Ok(Some(0)));
}

#[test]
fn as_type_mut_writes_through() {
    let mut layout = Plain::new();
    layout.add_text_component(Box::new(label("a")));
    layout.add_text_component(Box::new(label("b")));
    layout.add_event_component(Box::new(button(3, 4, None)));
    {
        let text: &mut Label = layout.borrow_text_component_as_type_mut(1).unwrap();
        text.size = 40;
        text.disable();
    }
    assert_eq!(layout.borrow_text_component(0).size, 12);
    assert_eq!(layout.borrow_text_component(1).size, 40);
    assert!(!layout.borrow_text_component(1).enabled);
    {
        let event: &mut Button<NoCallback> = layout.borrow_event_component_as_type_mut(0).unwrap();
        event.attached_text_id = Some(1);
    }
    assert_eq!(layout.borrow_event_component(0).attached_text_id, Some(1));
}

#[test]
fn as_type_fails_on_a_component_of_another_type() {
    let mut layout: Layout<Panel, Button<NoCallback>, AnyText> = Layout::new();
    layout.add_text_component(Box::new(AnyText::Plain(label("a"))));
    layout.add_text_component(Box::new(AnyText::Marker { at: ScreenPosition { x: 1, y: 2 }, shown: true }));
    let first: Result<&Label, DowncastError> = layout.borrow_text_component_as_type(0);
    assert_eq!(first.map(|l| l.content.as_str()), Ok("a"));
    let second: Result<&Label, DowncastError> = layout.borrow_text_component_as_type(1);
    assert_eq!(second.map(|l| l.size), Err(DowncastError));
    {
        let first: Result<&mut Label, DowncastError> = layout.borrow_text_component_as_type_mut(0);
        first.unwrap().size = 5;
    }
    {
        let second: Result<&mut Label, DowncastError> = layout.borrow_text_component_as_type_mut(1);
        assert!(matches!(second, Err(DowncastError)));
    }
    assert_eq!(
        **layout.borrow_text_component(1),
        AnyText::Marker { at: ScreenPosition { x: 1, y: 2 }, shown: true }
    );
    assert_eq!(layout.borrow_text_component_as_type::<Label>(0).unwrap().size, 5);
}

#[test]
fn the_downcast_error_has_a_message() {
    assert_eq!(DowncastError.message(), "Error, failed to downcast!");
}

#[test]
fn bindings_list_plain_components_first_then_event_components() {
    let mut layout = Plain::new();
    layout.add_text_component(Box::new(label("a")));
    layout.add_text_component(Box::new(label("b")));
    layout.add_event_component(Box::new(button(1, 2, Some(1))));
    layout.add_event_component(Box::new(button(3, 4, None)));
    let mut disabled = button(5, 6, Some(0));
    disabled.disable();
    layout.add_event_component(Box::new(disabled));
    layout.add_component(Box::new(Panel {
        name: 0,
        enabled: false,
        pos: CenteredPosition { x: 7, y: 8 },
        text_id: Some(0),
    }));
    layout.add_component(Box::new(panel(1)));
    assert_eq!(
        layout.bindings(),
        vec![
            Binding { text_id: 0, enabled: false, pos: CenteredPosition { x: 7, y: 8 } },
            Binding { text_id: 1, enabled: true, pos: CenteredPosition { x: 1, y: 2 } },
            Binding { text_id: 0, enabled: false, pos: CenteredPosition { x: 5, y: 6 } },
        ]
    );
    assert!(layout.bindings_valid());
}

#[test]
fn a_binding_to_a_missing_text_component_is_not_valid() {
    let mut layout = Plain::new();
    layout.add_text_component(Box::new(label("a")));
    layout.add_event_component(Box::new(button(0, 0, Some(0))));
    assert!(layout.bindings_valid());
    layout.add_event_component(Box::new(button(0, 0, Some(1))));
    assert!(!layout.bindings_valid());
    layout.add_text_component(Box::new(label("b")));
    assert!(layout.bindings_valid());
    layout.remove_text_component_by_id(0);
    assert!(!layout.bindings_valid());
    layout.borrow_event_component_mut(1).attached_text_id = None;
    assert!(layout.bindings_valid());
    layout.add_component(Box::new(Panel {
        name: 0,
        enabled: true,
        pos: CenteredPosition { x: 0, y: 0 },
        text_id: Some(usize::MAX),
    }));
    assert!(!layout.bindings_valid());
}
