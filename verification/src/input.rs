//! Window events as the renderer core reads them.
//!
//! The host turns each event of its windowing layer into one of these; an
//! event or a key that nothing here reacts to becomes `Other`.
use vstd::prelude::*;

verus! {

/// Whether a key or button went down or came up.
#[derive(Clone, Copy, Debug, PartialEq, Eq, Structural)]
pub enum ElementState {
    Pressed,
    Released,
}

/// The physical keys that the core reacts to.
#[derive(Clone, Copy, Debug, PartialEq, Eq, Structural)]
pub enum KeyCode {
    ArrowUp,
    ArrowDown,
    ArrowLeft,
    ArrowRight,
    KeyA,
    KeyC,
    KeyD,
    KeyS,
    KeyW,
    KeyZ,
    Escape,
    Other,
}

/// A mouse button.
#[derive(Clone, Copy, Debug, PartialEq, Eq, Structural)]
pub enum MouseButton {
    Left,
    Right,
    Middle,
    Other,
}

/// An event of the window that the renderer draws to.
#[derive(Clone, Copy, Debug, PartialEq, Eq, Structural)]
pub enum WindowEvent {
    /// The window was asked to close.
    CloseRequested,
    /// The window wants its contents drawn.
    RedrawRequested,
    /// The window gained or lost the focus.
    Focused { focused: bool },
    /// The window has a new size, in physical pixels.
    Resized { width: u32, height: u32 },
    /// The window's scale factor has changed.
    ScaleFactorChanged,
    /// A key went down or came up. `physical_key` says where the key sits
    /// on the keyboard; `is_escape` says whether the key means Escape in
    /// the layout that is in use.
    KeyboardInput { physical_key: KeyCode, is_escape: bool, state: ElementState },
    /// A mouse button went down or came up.
    MouseInput { button: MouseButton, state: ElementState },
    /// Any other event.
    Other,
}

impl WindowEvent {
    /// Whether the event says that the key at `key` came up.
    pub open spec fn is_release_of(self, key: KeyCode) -> bool {
        match self {
            WindowEvent::KeyboardInput { physical_key, is_escape, state } => physical_key == key
                && state == ElementState::Released,
            _ => false,
        }
    }

    /// Computes `is_release_of`.
    pub fn releases(&self, key: KeyCode) -> (r: bool)
        ensures
            r == self.is_release_of(key),
    {
        match *self {
            WindowEvent::KeyboardInput { physical_key, is_escape, state } => {
                physical_key == key && state == ElementState::Released
            },
            _ => false,
        }
    }
}

} // verus!
