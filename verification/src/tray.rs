//! Pointer events on the tray glyph itself, as distinct from selections in
//! the tray menu.

use vstd::prelude::*;

verus! {

/// A mouse button.
#[derive(Clone, Copy, Debug, PartialEq, Eq, Structural)]
pub enum MouseButton {
    Left,
    Right,
    Middle,
}

/// Whether a button went down or came up.
#[derive(Clone, Copy, Debug, PartialEq, Eq, Structural)]
pub enum MouseButtonState {
    Up,
    Down,
}

/// A pointer event on the tray glyph.
#[derive(Clone, Copy, Debug, PartialEq, Eq, Structural)]
pub enum TrayIconEvent {
    /// A button was pressed or released on the glyph.
    Click { button: MouseButton, button_state: MouseButtonState },
    /// A button was clicked twice on the glyph.
    DoubleClick { button: MouseButton },
    /// The pointer entered the glyph.
    Enter,
    /// The pointer moved over the glyph.
    Move,
    /// The pointer left the glyph.
    Leave,
}

impl TrayIconEvent {
    /// Whether the event is the release of the left button on the glyph.
    pub open spec fn spec_is_left_release(&self) -> bool {
        *self == (TrayIconEvent::Click {
            button: MouseButton::Left,
            button_state: MouseButtonState::Up,
        })
    }

    /// Whether the event is the release of the left button on the glyph: the
    /// one pointer event that reveals the window. Presses, other buttons and
    /// pointer movement are left to the menu system.
    #[verifier::when_used_as_spec(spec_is_left_release)]
    pub fn is_left_release(&self) -> (left_release: bool)
        ensures
            left_release == self.spec_is_left_release(),
    {
        match self {
            TrayIconEvent::Click { button: MouseButton::Left, button_state: MouseButtonState::Up } => true,
            _ => false,
        }
    }
}

} // verus!
