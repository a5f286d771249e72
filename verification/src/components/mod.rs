pub mod base_components;

pub use base_components::{
    Button, Callback, Color, Downcast, DowncastError, DrawCall, EventGUIComponent, GUIComponent,
    HorizontalAlign, Label, NoCallback, Span, TextGUIComponent, TextSection, VerticalAlign,
};
