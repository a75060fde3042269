//! The engine's input events.

use vstd::prelude::*;

verus! {

/// An input event delivered by the engine to the game.
#[derive(Clone, Debug, PartialEq)]
pub enum Input {
    Tick(u32),
    ApplicationExit,
    AssetLoaded { file: &'static str },
    Mouse(Mouse),
    Window(Window),
    Key { key: Key, state: PressState },
}

#[derive(Clone, Copy, Debug, PartialEq, Eq, Structural)]
pub enum PressState {
    Pressed,
    Released,
}

#[derive(Clone, Copy, Debug, PartialEq, Eq, Structural)]
pub enum Key {
    Up,
    Down,
    Left,
    Right,
    Space,
}

/// A window event. A dropped file carries the path of the file as text.
#[derive(Clone, Debug, PartialEq)]
pub enum Window {
    DroppedFile(String),
    Resized { height: u32, width: u32 },
}

#[derive(Copy, Clone, Debug, PartialEq, Eq, Structural)]
pub enum MouseButton {
    Left,
    Right,
    Middle,
    Other(u16),
}

#[derive(Copy, Clone, Debug, PartialEq, Eq, Structural)]
pub enum Mouse {
    Clicked { x: i32, y: i32, button: MouseButton },
    Released { x: i32, y: i32, button: MouseButton },
    Moved { x: i32, y: i32 },
}

} // verus!
