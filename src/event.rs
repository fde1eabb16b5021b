use vstd::prelude::*;

verus! {

/// Whether a key or button went down or up.
#[derive(Debug, Clone, Copy, PartialEq, Eq, Structural)]
pub enum ElementState {
    Pressed,
    Released,
}

/// A mouse button.
#[derive(Debug, Clone, Copy, PartialEq, Eq, Structural)]
pub enum MouseButton {
    Left,
    Right,
    Middle,
    Other(u16),
}

/// Window lifecycle events handed to the application.
#[derive(Debug, Clone, Copy, PartialEq, Eq, Structural)]
pub enum WindowEvent {
    /// The window's outer position, in physical pixels.
    Moved { x: i32, y: i32 },
    /// The window's new inner size, in physical pixels.
    Resized { width: u32, height: u32 },
    /// The scale factor changed; the window's new inner size, in physical pixels.
    Rescaled { width: u32, height: u32 },
}

/// Input events handed to the application, in the order the platform produced them.
/// Pointer positions and scroll amounts are fractional and travel beside the event.
#[derive(Debug, Clone, Copy, PartialEq, Eq, Structural)]
pub enum InputEvent {
    Mouse { state: ElementState, button: MouseButton },
    /// `keycode` is the window system's virtual key code, when the key has one.
    Keyboard { state: ElementState, keycode: Option<u32>, scancode: u32 },
    /// The modifier keys now held, as the window system's bit set.
    Modifiers { bits: u32 },
    Cursor,
    Scroll,
}

/// Platform events, as the frame driver receives them from the window system.
#[derive(Debug, Clone, Copy, PartialEq, Eq, Structural)]
pub enum PlatformEvent {
    Window(WindowEvent),
    CloseRequested,
    Input(InputEvent),
}

} // verus!
