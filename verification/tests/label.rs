use rusty_gui::components::{
    Color, Downcast, HorizontalAlign, Label, TextGUIComponent, TextSection, VerticalAlign,
};
use rusty_gui::event::PhysicalSize;
use rusty_gui::rendering::coords::{CenteredPosition, ScreenPosition};

#[test]
fn new_label_is_enabled_and_aligned_top_left() {
    let label = Label::new("Hello, world!", 128, ScreenPosition { x: 100, y: 100 });
    assert_eq!(label.content, "Hello, world!");
    assert_eq!(label.size, 128);
    assert_eq!(label.pos, ScreenPosition { x: 100, y: 100 });
    assert_eq!(label.v_align, VerticalAlign::Top);
    assert_eq!(label.h_align, HorizontalAlign::Left);
    assert!(label.enabled);
}

#[test]
fn alignment_setters_change_one_axis_each() {
    let mut label = Label::new("a", 1, ScreenPosition { x: 0, y: 0 });
    label.align_vertical(VerticalAlign::Center);
    assert_eq!(label.v_align, VerticalAlign::Center);
    assert_eq!(label.h_align, HorizontalAlign::Left);
    label.align_horizontal(HorizontalAlign::Right);
    assert_eq!(label.v_align, VerticalAlign::Center);
    assert_eq!(label.h_align, HorizontalAlign::Right);
    label.align_vertical(VerticalAlign::Bottom);
    assert_eq!(label.v_align, VerticalAlign::Bottom);
    assert_eq!(label.h_align, HorizontalAlign::Right);
    assert_eq!(label.content, "a");
    assert_eq!(label.size, 1);
    assert!(label.enabled);
}

#[test]
fn label_enable_and_disable_change_the_switch_alone() {
    let mut label = Label::new("a", 7, ScreenPosition { x: 3, y: 4 });
    let before = label.clone();
    label.disable();
    assert!(!label.enabled);
    assert_eq!(label, Label { enabled: false, ..before.clone() });
    label.disable();
    assert!(!label.enabled);
    label.enable();
    assert_eq!(label, before);
    TextGUIComponent::disable(&mut label);
    assert!(!label.enabled);
    TextGUIComponent::enable(&mut label);
    assert_eq!(label, before);
}

#[test]
fn follow_puts_the_label_at_the_owner_on_the_surface() {
    let mut label = Label::new("a", 7, ScreenPosition { x: 3, y: 4 });
    label.follow(CenteredPosition { x: 0, y: 0 }, PhysicalSize::new(800, 600));
    assert_eq!(label.pos, ScreenPosition { x: 400, y: 300 });
    label.follow(CenteredPosition { x: -30, y: 45 }, PhysicalSize::new(801, 601));
    assert_eq!(label.pos, ScreenPosition { x: 370, y: 345 });
    assert_eq!(label.content, "a");
    assert_eq!(label.size, 7);
    assert!(label.enabled);
}

#[test]
fn set_pos_of_the_text_trait_converts_like_follow() {
    let mut label = Label::new("a", 7, ScreenPosition { x: 3, y: 4 });
    label.set_pos(CenteredPosition { x: 10, y: -10 }, PhysicalSize::new(100, 50));
    assert_eq!(label.pos, ScreenPosition { x: 60, y: 15 });
}

#[test]
fn an_enabled_label_renders_its_section() {
    let mut label = Label::new("This is button text", 24, ScreenPosition { x: 250, y: 251 });
    label.align_horizontal(HorizontalAlign::Center);
    label.align_vertical(VerticalAlign::Bottom);
    assert_eq!(
        label.render_text(),
        Some(TextSection {
            screen_position: ScreenPosition { x: 250, y: 251 },
            text: String::from("This is button text"),
            scale: 24,
            color: Color { r: 0, g: 0, b: 0, a: 255 },
            v_align: VerticalAlign::Bottom,
            h_align: HorizontalAlign::Center,
        })
    );
}

#[test]
fn a_disabled_label_renders_nothing() {
    let mut label = Label::new("gone", 24, ScreenPosition { x: 250, y: 250 });
    label.disable();
    assert_eq!(label.render_text(), None);
    label.enable();
    assert!(label.render_text().is_some());
}

#[test]
fn a_label_is_a_label() {
    let mut label = Label::new("typed", 2, ScreenPosition { x: 1, y: 1 });
    assert_eq!(label.as_type().map(|l: &Label| l.content.clone()), Some(String::from("typed")));
    match label.as_type_mut() {
        Some(inner) => {
            let inner: &mut Label = inner;
            inner.size = 99;
        }
        None => panic!("a label is a label"),
    }
    assert_eq!(label.size, 99);
}

#[test]
fn colours_are_opaque() {
    assert_eq!(Color::black(), Color { r: 0, g: 0, b: 0, a: 255 });
    assert_eq!(Color::white(), Color { r: 255, g: 255, b: 255, a: 255 });
}
