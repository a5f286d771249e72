use rusty_gui::event::{
    ControlFlow, ElementState, Event, MouseButton, PhysicalPosition, PhysicalSize, VirtualKeyCode,
    WindowEvent,
};
use rusty_gui::rendering::window::window_loop_step;
use rusty_gui::rendering::{
    Placement, PresentMode, ScreenMode, WindowAction, WindowBuilder, WindowStep,
};

fn window_event(event: WindowEvent) -> Event {
    Event::WindowEvent { own_window: true, event }
}

#[test]
fn a_new_builder_has_the_default_options() {
    let builder = WindowBuilder::new();
    assert_eq!(builder.resolution(), (800, 600));
    assert_eq!(builder.title(), "Rusty GUI");
    assert!(builder.vsync());
    assert_eq!(builder.screen_mode(), ScreenMode::Windowed);
    assert!(builder.resizeable());
    assert!(builder.decorations());
}

#[test]
fn the_default_builder_is_the_new_builder() {
    let builder = WindowBuilder::default();
    assert_eq!(builder.resolution(), (800, 600));
    assert_eq!(builder.title(), "Rusty GUI");
    assert!(builder.vsync());
    assert_eq!(builder.screen_mode(), ScreenMode::Windowed);
    assert!(builder.resizeable());
    assert!(builder.decorations());
}

#[test]
fn each_setter_changes_its_own_option() {
    let mut builder = WindowBuilder::new();
    builder.set_resolution((1024, 768));
    assert_eq!(builder.resolution(), (1024, 768));
    assert_eq!(builder.title(), "Rusty GUI");
    builder.set_title("Hello Window!");
    assert_eq!(builder.title(), "Hello Window!");
    assert_eq!(builder.resolution(), (1024, 768));
    builder.set_vsync(false);
    assert!(!builder.vsync());
    assert!(builder.resizeable());
    builder.set_screenmode(ScreenMode::Borderless);
    assert_eq!(builder.screen_mode(), ScreenMode::Borderless);
    builder.set_decorations(false);
    assert!(!builder.decorations());
    assert!(builder.resizeable());
    builder.set_resizeable(false);
    assert!(!builder.resizeable());
    assert_eq!(builder.resolution(), (1024, 768));
    assert_eq!(builder.title(), "Hello Window!");
    assert!(!builder.vsync());
    assert_eq!(builder.screen_mode(), ScreenMode::Borderless);
    assert!(!builder.decorations());
}

#[test]
fn setters_chain() {
    let mut builder = WindowBuilder::new();
    builder
        .set_screenmode(ScreenMode::Borderless)
        .set_resolution((800, 600))
        .set_title("Hello Window!")
        .set_vsync(true)
        .set_decorations(false)
        .set_resizeable(false);
    assert_eq!(builder.screen_mode(), ScreenMode::Borderless);
    assert_eq!(builder.resolution(), (800, 600));
    assert_eq!(builder.title(), "Hello Window!");
    assert!(builder.vsync());
    assert!(!builder.decorations());
    assert!(!builder.resizeable());
}

#[test]
fn a_later_setting_replaces_an_earlier_one() {
    let mut builder = WindowBuilder::new();
    builder.set_title("one").set_title("two").set_resolution((1, 2)).set_resolution((3, 4));
    assert_eq!(builder.title(), "two");
    assert_eq!(builder.resolution(), (3, 4));
}

#[test]
fn a_windowed_window_takes_the_resolution() {
    let mut builder = WindowBuilder::new();
    let config = builder.set_resolution((640, 480)).set_title("Rusty GUI app").build();
    assert_eq!(config.placement, Placement::Sized { width: 640, height: 480 });
    assert_eq!(config.title, "Rusty GUI app");
    assert!(config.resizable);
    assert!(config.decorations);
    assert_eq!(config.present_mode, PresentMode::Fifo);
    assert_eq!(builder.resolution(), (640, 480));
    assert_eq!(builder.title(), "Rusty GUI app");
}

#[test]
fn a_fullscreen_window_takes_the_monitor() {
    let mut builder = WindowBuilder::new();
    builder.set_resolution((640, 480)).set_screenmode(ScreenMode::Fullscreen);
    assert_eq!(builder.build().placement, Placement::Exclusive);
    builder.set_screenmode(ScreenMode::Borderless);
    assert_eq!(builder.build().placement, Placement::Borderless);
    builder.set_screenmode(ScreenMode::Windowed);
    assert_eq!(builder.build().placement, Placement::Sized { width: 640, height: 480 });
}

#[test]
fn vsync_decides_how_frames_are_presented() {
    let mut builder = WindowBuilder::new();
    assert_eq!(builder.build().present_mode, PresentMode::Fifo);
    builder.set_vsync(false);
    assert_eq!(builder.build().present_mode, PresentMode::Mailbox);
    builder.set_vsync(true);
    assert_eq!(builder.build().present_mode, PresentMode::Fifo);
}

#[test]
fn build_hands_on_flags() {
    let mut builder = WindowBuilder::new();
    builder.set_decorations(false);
    let config = builder.build();
    assert!(!config.decorations);
    assert!(config.resizable);
    builder.set_decorations(true).set_resizeable(false);
    let config = builder.build();
    assert!(config.decorations);
    assert!(!config.resizable);
}

#[test]
fn the_window_loop_leaves_on_close_and_on_escape() {
    let close = window_loop_step(&window_event(WindowEvent::CloseRequested));
    assert_eq!(close, WindowStep { control_flow: ControlFlow::Exit, action: WindowAction::Idle });
    let escape = window_loop_step(&window_event(WindowEvent::KeyboardInput {
        state: ElementState::Pressed,
        virtual_keycode: Some(VirtualKeyCode::Escape),
    }));
    assert_eq!(escape, WindowStep { control_flow: ControlFlow::Exit, action: WindowAction::Idle });
}

#[test]
fn the_window_loop_stays_on_other_keys() {
    let keys = [
        (ElementState::Released, Some(VirtualKeyCode::Escape)),
        (ElementState::Pressed, Some(VirtualKeyCode::Other)),
        (ElementState::Pressed, None),
    ];
    for (state, virtual_keycode) in keys {
        let step = window_loop_step(&window_event(WindowEvent::KeyboardInput { state, virtual_keycode }));
        assert_eq!(step, WindowStep { control_flow: ControlFlow::Wait, action: WindowAction::Idle });
    }
}

#[test]
fn the_window_loop_ignores_other_windows() {
    let events = [
        WindowEvent::CloseRequested,
        WindowEvent::Resized(PhysicalSize::new(1, 1)),
        WindowEvent::KeyboardInput {
            state: ElementState::Pressed,
            virtual_keycode: Some(VirtualKeyCode::Escape),
        },
    ];
    for event in events {
        let step = window_loop_step(&Event::WindowEvent { own_window: false, event });
        assert_eq!(step, WindowStep { control_flow: ControlFlow::Wait, action: WindowAction::Idle });
    }
}

#[test]
fn the_window_loop_passes_sizes_on() {
    let step = window_loop_step(&window_event(WindowEvent::Resized(PhysicalSize::new(3, 4))));
    assert_eq!(
        step,
        WindowStep { control_flow: ControlFlow::Wait, action: WindowAction::Resize(PhysicalSize::new(3, 4)) }
    );
    let step = window_loop_step(&window_event(WindowEvent::ScaleFactorChanged {
        new_inner_size: PhysicalSize::new(0, 0),
    }));
    assert_eq!(step.action, WindowAction::Resize(PhysicalSize::new(0, 0)));
}

#[test]
fn the_window_loop_redraws() {
    assert_eq!(
        window_loop_step(&Event::MainEventsCleared),
        WindowStep { control_flow: ControlFlow::Wait, action: WindowAction::RequestRedraw }
    );
    assert_eq!(
        window_loop_step(&Event::RedrawRequested),
        WindowStep { control_flow: ControlFlow::Wait, action: WindowAction::Render }
    );
    assert_eq!(
        window_loop_step(&Event::Other),
        WindowStep { control_flow: ControlFlow::Wait, action: WindowAction::Idle }
    );
    let moved = window_event(WindowEvent::CursorMoved { position: PhysicalPosition::new(1, 2) });
    assert_eq!(window_loop_step(&moved).action, WindowAction::Idle);
    let click =
        window_event(WindowEvent::MouseInput { state: ElementState::Released, button: MouseButton::Other(7) });
    assert_eq!(window_loop_step(&click).action, WindowAction::Idle);
}

#[test]
fn events_answer_what_they_report() {
    let moved = window_event(WindowEvent::CursorMoved { position: PhysicalPosition::new(1, 2) });
    assert_eq!(moved.cursor_position(), Some(PhysicalPosition::new(1, 2)));
    assert_eq!(moved.new_size(), None);
    assert!(!moved.is_close_request());
    assert!(!moved.is_escape_press());
    let elsewhere = Event::WindowEvent {
        own_window: false,
        event: WindowEvent::CursorMoved { position: PhysicalPosition::new(1, 2) },
    };
    assert_eq!(elsewhere.cursor_position(), None);
    let resized = window_event(WindowEvent::Resized(PhysicalSize::new(5, 6)));
    assert_eq!(resized.new_size(), Some(PhysicalSize::new(5, 6)));
    assert_eq!(resized.cursor_position(), None);
    assert!(window_event(WindowEvent::CloseRequested).is_close_request());
    assert!(!Event::RedrawRequested.is_close_request());
    assert_eq!(Event::MainEventsCleared.new_size(), None);
}
