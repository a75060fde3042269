//! Turning the window system's events into engine inputs and renderer messages. The
//! window system's events are described here by plain values; the caller reads them off
//! the real events and carries out what the handler asks for.

use vstd::prelude::*;
use crate::input::{Input, Key, Mouse, MouseButton, PressState, Window};
use super::settings::GfxMsgs;

verus! {

/// The keys the window system reports, as far as the engine tells them apart.
#[derive(Copy, Clone, Debug, PartialEq, Eq, Structural)]
pub enum HostKey {
    Left,
    Up,
    Right,
    Down,
    Space,
    Other,
}

/// An event of one window.
#[derive(Clone, Debug)]
pub enum HostWindowEvent {
    CloseRequested,
    Resized { width: u32, height: u32 },
    ScaleFactorChanged { width: u32, height: u32 },
    DroppedFile(String),
    /// A key went down or up; `key` is `None` when the key has no known meaning.
    KeyboardInput { pressed: bool, key: Option<HostKey> },
    /// The cursor moved to the given pixel, in whole pixels.
    CursorMoved { x: i32, y: i32 },
    MouseInput { pressed: bool, button: MouseButton },
    Other,
}

/// An event of the window system's event loop.
#[derive(Clone, Debug)]
pub enum HostEvent {
    RedrawRequested,
    MainEventsCleared,
    /// An event of a window; `ours` is whether it is the game's window.
    Window { ours: bool, event: HostWindowEvent },
    Other,
}

/// What handling an event asks of the caller, and the input it yields.
#[derive(Clone, Debug)]
pub struct Handled {
    /// The input for the game, if the event makes one.
    pub input: Option<Input>,
    /// A message to send to the renderer.
    pub gfx_msg: Option<GfxMsgs>,
    /// Whether to ask the window for a redraw.
    pub request_redraw: bool,
    /// Whether to leave the event loop.
    pub exit: bool,
}

/// The engine key of a window system key, if it has one.
pub open spec fn spec_engine_key(key: HostKey) -> Option<Key> {
    match key {
        HostKey::Left => Some(Key::Left),
        HostKey::Up => Some(Key::Up),
        HostKey::Right => Some(Key::Right),
        HostKey::Down => Some(Key::Down),
        HostKey::Space => Some(Key::Space),
        HostKey::Other => None,
    }
}

/// Nothing to do and no input.
pub open spec fn nothing() -> Handled {
    Handled { input: None, gfx_msg: None, request_redraw: false, exit: false }
}

/// What an event of the game's window yields, for a cursor last seen at `cursor`.
pub open spec fn window_event_handled(cursor: (i32, i32), event: HostWindowEvent) -> Handled {
    match event {
        HostWindowEvent::CloseRequested => Handled {
            input: Some(Input::ApplicationExit),
            gfx_msg: None,
            request_redraw: false,
            exit: true,
        },
        HostWindowEvent::Resized { width, height } => Handled {
            input: Some(Input::Window(Window::Resized { height, width })),
            gfx_msg: Some(GfxMsgs::Resize { width, height }),
            request_redraw: false,
            exit: false,
        },
        HostWindowEvent::ScaleFactorChanged { width, height } => Handled {
            input: Some(Input::Window(Window::Resized { height, width })),
            gfx_msg: Some(GfxMsgs::Resize { width, height }),
            request_redraw: false,
            exit: false,
        },
        HostWindowEvent::DroppedFile(path) => Handled {
            input: Some(Input::Window(Window::DroppedFile(path))),
            gfx_msg: None,
            request_redraw: false,
            exit: false,
        },
        HostWindowEvent::KeyboardInput { pressed, key } => {
            let state = if pressed {
                PressState::Pressed
            } else {
                PressState::Released
            };
            match key {
                Some(k) => match spec_engine_key(k) {
                    Some(ek) => Handled {
                        input: Some(Input::Key { key: ek, state }),
                        gfx_msg: None,
                        request_redraw: false,
                        exit: false,
                    },
                    None => nothing(),
                },
                None => nothing(),
            }
        },
        HostWindowEvent::CursorMoved { x, y } => Handled {
            input: Some(Input::Mouse(Mouse::Moved { x, y })),
            gfx_msg: None,
            request_redraw: false,
            exit: false,
        },
        HostWindowEvent::MouseInput { pressed, button } => {
            let (x, y) = cursor;
            Handled {
                input: Some(
                    Input::Mouse(
                        if pressed {
                            Mouse::Clicked { x, y, button }
                        } else {
                            Mouse::Released { x, y, button }
                        },
                    ),
                ),
                gfx_msg: None,
                request_redraw: false,
                exit: false,
            }
        },
        HostWindowEvent::Other => nothing(),
    }
}

/// What an event yields, for a cursor last seen at `cursor`: a redraw request of the
/// window system asks the renderer to render; the end of a batch of events asks the
/// window to redraw; events of other windows are ignored.
pub open spec fn event_handled(cursor: (i32, i32), event: HostEvent) -> Handled {
    match event {
        HostEvent::RedrawRequested => Handled {
            input: None,
            gfx_msg: Some(GfxMsgs::Render),
            request_redraw: false,
            exit: false,
        },
        HostEvent::MainEventsCleared => Handled {
            input: None,
            gfx_msg: None,
            request_redraw: true,
            exit: false,
        },
        HostEvent::Window { ours, event } => if ours {
            window_event_handled(cursor, event)
        } else {
            nothing()
        },
        HostEvent::Other => nothing(),
    }
}

/// The cursor position after an event: a cursor move of the game's window sets it.
pub open spec fn cursor_after(cursor: (i32, i32), event: HostEvent) -> (i32, i32) {
    match event {
        HostEvent::Window { ours: true, event: HostWindowEvent::CursorMoved { x, y } } => (x, y),
        _ => cursor,
    }
}

/// Turns window system events into engine inputs, remembering where the cursor is.
pub struct InputHandler {
    cursor_position: (i32, i32),
}

impl InputHandler {
    /// The last cursor position seen in the game's window.
    pub closed spec fn cursor(&self) -> (i32, i32) {
        self.cursor_position
    }

    /// A handler with the cursor at the origin.
    pub fn new() -> (handler: Self)
        ensures
            handler.cursor() == (0i32, 0i32),
    {
        Self { cursor_position: (0, 0) }
    }

    /// Handles one event (see `event_handled` and `cursor_after`).
    pub fn handle_events(&mut self, event: HostEvent) -> (handled: Handled)
        ensures
            handled == event_handled(old(self).cursor(), event),
            final(self).cursor() == cursor_after(old(self).cursor(), event),
    {
        match event {
            HostEvent::RedrawRequested => Handled {
                input: None,
                gfx_msg: Some(GfxMsgs::Render),
                request_redraw: false,
                exit: false,
            },
            HostEvent::MainEventsCleared => Handled {
                input: None,
                gfx_msg: None,
                request_redraw: true,
                exit: false,
            },
            HostEvent::Window { ours, event } => {
                if ours {
                    self.handle_window_event(event)
                } else {
                    Handled { input: None, gfx_msg: None, request_redraw: false, exit: false }
                }
            },
            HostEvent::Other => Handled {
                input: None,
                gfx_msg: None,
                request_redraw: false,
                exit: false,
            },
        }
    }

    fn handle_window_event(&mut self, event: HostWindowEvent) -> (handled: Handled)
        ensures
            handled == window_event_handled(old(self).cursor(), event),
            final(self).cursor() == cursor_after(
                old(self).cursor(),
                HostEvent::Window { ours: true, event },
            ),
    {
        let none = Handled { input: None, gfx_msg: None, request_redraw: false, exit: false };
        match event {
            HostWindowEvent::CloseRequested => Handled {
                input: Some(Input::ApplicationExit),
                gfx_msg: None,
                request_redraw: false,
                exit: true,
            },
            HostWindowEvent::Resized { width, height } => Handled {
                input: Some(Input::Window(Window::Resized { height, width })),
                gfx_msg: Some(GfxMsgs::Resize { width, height }),
                request_redraw: false,
                exit: false,
            },
            HostWindowEvent::ScaleFactorChanged { width, height } => Handled {
                input: Some(Input::Window(Window::Resized { height, width })),
                gfx_msg: Some(GfxMsgs::Resize { width, height }),
                request_redraw: false,
                exit: false,
            },
            HostWindowEvent::DroppedFile(path) => Handled {
                input: Some(Input::Window(Window::DroppedFile(path))),
                gfx_msg: None,
                request_redraw: false,
                exit: false,
            },
            HostWindowEvent::KeyboardInput { pressed, key } => {
                let state = if pressed {
                    PressState::Pressed
                } else {
                    PressState::Released
                };
                match key {
                    Some(k) => {
                        let engine_key = match k {
                            HostKey::Left => Some(Key::Left),
                            HostKey::Up => Some(Key::Up),
                            HostKey::Right => Some(Key::Right),
                            HostKey::Down => Some(Key::Down),
                            HostKey::Space => Some(Key::Space),
                            HostKey::Other => None,
                        };
                        match engine_key {
                            Some(ek) => Handled {
                                input: Some(Input::Key { key: ek, state }),
                                gfx_msg: None,
                                request_redraw: false,
                                exit: false,
                            },
                            None => none,
                        }
                    },
                    None => none,
                }
            },
            HostWindowEvent::CursorMoved { x, y } => {
                self.cursor_position = (x, y);
                Handled {
                    input: Some(Input::Mouse(Mouse::Moved { x, y })),
                    gfx_msg: None,
                    request_redraw: false,
                    exit: false,
                }
            },
            HostWindowEvent::MouseInput { pressed, button } => {
                let (x, y) = self.cursor_position;
                let mouse_event = if pressed {
                    Mouse::Clicked { x, y, button }
                } else {
                    Mouse::Released { x, y, button }
                };
                Handled { input: Some(Input::Mouse(mouse_event)), gfx_msg: None, request_redraw: false, exit: false }
            },
            HostWindowEvent::Other => none,
        }
    }
}

/// A mouse button is reported where the cursor was last seen moving in the game's
/// window.
pub proof fn lemma_button_at_last_cursor(
    cursor: (i32, i32),
    x: i32,
    y: i32,
    pressed: bool,
    button: MouseButton,
)
    ensures
        ({
            let moved = cursor_after(
                cursor,
                HostEvent::Window { ours: true, event: HostWindowEvent::CursorMoved { x, y } },
            );
            let input = event_handled(
                moved,
                HostEvent::Window { ours: true, event: HostWindowEvent::MouseInput { pressed, button } },
            ).input;
            &&& pressed ==> input == Some(Input::Mouse(Mouse::Clicked { x, y, button }))
            &&& !pressed ==> input == Some(Input::Mouse(Mouse::Released { x, y, button }))
        }),
{
}

/// Each key the engine knows reaches the game as the key of the same name, pressed or
/// released as it was; any other key, or one without a known meaning, yields nothing.
pub proof fn lemma_keys_keep_their_names(cursor: (i32, i32), pressed: bool, key: Option<HostKey>)
    ensures
        ({
            let state = if pressed {
                PressState::Pressed
            } else {
                PressState::Released
            };
            let handled = event_handled(
                cursor,
                HostEvent::Window { ours: true, event: HostWindowEvent::KeyboardInput { pressed, key } },
            );
            &&& key == Some(HostKey::Up) ==> handled.input == Some(Input::Key { key: Key::Up, state })
            &&& key == Some(HostKey::Down) ==> handled.input == Some(Input::Key { key: Key::Down, state })
            &&& key == Some(HostKey::Left) ==> handled.input == Some(Input::Key { key: Key::Left, state })
            &&& key == Some(HostKey::Right) ==> handled.input == Some(Input::Key { key: Key::Right, state })
            &&& key == Some(HostKey::Space) ==> handled.input == Some(Input::Key { key: Key::Space, state })
            &&& (key == Some(HostKey::Other) || key is None) ==> handled.input is None
            &&& handled.gfx_msg is None && !handled.exit && !handled.request_redraw
        }),
{
}

/// A resize of the game's window reaches both the game and the renderer with the same
/// width and height, and so does a change of scale.
pub proof fn lemma_resize_keeps_its_size(cursor: (i32, i32), width: u32, height: u32)
    ensures
        ({
            let r = event_handled(
                cursor,
                HostEvent::Window { ours: true, event: HostWindowEvent::Resized { width, height } },
            );
            let s = event_handled(
                cursor,
                HostEvent::Window { ours: true, event: HostWindowEvent::ScaleFactorChanged { width, height } },
            );
            &&& r.input == Some(Input::Window(Window::Resized { height, width }))
            &&& r.gfx_msg == Some(GfxMsgs::Resize { width, height })
            &&& s.input == Some(Input::Window(Window::Resized { height, width }))
            &&& s.gfx_msg == Some(GfxMsgs::Resize { width, height })
            &&& !r.exit && !s.exit
        }),
{
}

/// Closing the game's window asks to leave the loop and tells the game; a redraw request
/// only asks the renderer to render; events of other windows do nothing.
pub proof fn lemma_close_redraw_and_other_windows(cursor: (i32, i32), event: HostWindowEvent)
    ensures
        event_handled(cursor, HostEvent::Window { ours: true, event: HostWindowEvent::CloseRequested }).exit,
        event_handled(cursor, HostEvent::Window { ours: true, event: HostWindowEvent::CloseRequested }).input
            == Some(Input::ApplicationExit),
        event_handled(cursor, HostEvent::RedrawRequested).gfx_msg == Some(GfxMsgs::Render),
        event_handled(cursor, HostEvent::RedrawRequested).input is None,
        event_handled(cursor, HostEvent::Window { ours: false, event }).input is None,
        event_handled(cursor, HostEvent::Window { ours: false, event }).gfx_msg is None,
        !event_handled(cursor, HostEvent::Window { ours: false, event }).exit,
        cursor_after(cursor, HostEvent::Window { ours: false, event }) == cursor,
{
}

} // verus!
