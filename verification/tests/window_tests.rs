use portia::gfx::input_handler::{HostEvent, HostKey, HostWindowEvent, InputHandler};
use portia::gfx::settings::GfxMsgs;
use portia::input::{Input, Key, Mouse, MouseButton, PressState, Window};

fn ours(event: HostWindowEvent) -> HostEvent {
    HostEvent::Window { ours: true, event }
}

#[test]
fn redraw_asks_the_renderer_to_render() {
    let mut h = InputHandler::new();
    let r = h.handle_events(HostEvent::RedrawRequested);
    assert_eq!(r.input, None);
    assert_eq!(r.gfx_msg, Some(GfxMsgs::Render));
    assert!(!r.request_redraw);
    assert!(!r.exit);
    let r = h.handle_events(HostEvent::MainEventsCleared);
    assert!(r.request_redraw);
    assert_eq!(r.gfx_msg, None);
}

#[test]
fn close_requested_exits() {
    let mut h = InputHandler::new();
    let r = h.handle_events(ours(HostWindowEvent::CloseRequested));
    assert_eq!(r.input, Some(Input::ApplicationExit));
    assert!(r.exit);
}

#[test]
fn resize_goes_to_game_and_renderer() {
    let mut h = InputHandler::new();
    let r = h.handle_events(ours(HostWindowEvent::Resized { width: 640, height: 360 }));
    assert_eq!(r.input, Some(Input::Window(Window::Resized { height: 360, width: 640 })));
    assert_eq!(r.gfx_msg, Some(GfxMsgs::Resize { width: 640, height: 360 }));
    let r = h.handle_events(ours(HostWindowEvent::ScaleFactorChanged { width: 10, height: 20 }));
    assert_eq!(r.input, Some(Input::Window(Window::Resized { height: 20, width: 10 })));
    assert_eq!(r.gfx_msg, Some(GfxMsgs::Resize { width: 10, height: 20 }));
}

#[test]
fn dropped_file_keeps_its_path() {
    let mut h = InputHandler::new();
    let r = h.handle_events(ours(HostWindowEvent::DroppedFile("a/b.glb".to_string())));
    assert_eq!(r.input, Some(Input::Window(Window::DroppedFile("a/b.glb".to_string()))));
}

#[test]
fn known_keys_map_and_others_are_dropped() {
    let mut h = InputHandler::new();
    let r = h.handle_events(ours(HostWindowEvent::KeyboardInput { pressed: true, key: Some(HostKey::Space) }));
    assert_eq!(r.input, Some(Input::Key { key: Key::Space, state: PressState::Pressed }));
    let r = h.handle_events(ours(HostWindowEvent::KeyboardInput { pressed: false, key: Some(HostKey::Left) }));
    assert_eq!(r.input, Some(Input::Key { key: Key::Left, state: PressState::Released }));
    let r = h.handle_events(ours(HostWindowEvent::KeyboardInput { pressed: true, key: Some(HostKey::Other) }));
    assert_eq!(r.input, None);
    let r = h.handle_events(ours(HostWindowEvent::KeyboardInput { pressed: true, key: None }));
    assert_eq!(r.input, None);
}

#[test]
fn clicks_happen_where_the_cursor_was_seen() {
    let mut h = InputHandler::new();
    let r = h.handle_events(ours(HostWindowEvent::MouseInput { pressed: true, button: MouseButton::Left }));
    assert_eq!(r.input, Some(Input::Mouse(Mouse::Clicked { x: 0, y: 0, button: MouseButton::Left })));
    let r = h.handle_events(ours(HostWindowEvent::CursorMoved { x: 12, y: -3 }));
    assert_eq!(r.input, Some(Input::Mouse(Mouse::Moved { x: 12, y: -3 })));
    let r = h.handle_events(ours(HostWindowEvent::MouseInput { pressed: false, button: MouseButton::Other(4) }));
    assert_eq!(r.input, Some(Input::Mouse(Mouse::Released { x: 12, y: -3, button: MouseButton::Other(4) })));
}

#[test]
fn other_windows_are_ignored() {
    let mut h = InputHandler::new();
    let r = h.handle_events(HostEvent::Window { ours: false, event: HostWindowEvent::CursorMoved { x: 5, y: 5 } });
    assert_eq!(r.input, None);
    assert!(!r.exit);
    let r = h.handle_events(ours(HostWindowEvent::MouseInput { pressed: true, button: MouseButton::Right }));
    assert_eq!(r.input, Some(Input::Mouse(Mouse::Clicked { x: 0, y: 0, button: MouseButton::Right })));
    let r = h.handle_events(HostEvent::Other);
    assert_eq!(r.input, None);
}
