//! The events of the window system, reduced to what the render loop reads.

use vstd::prelude::*;
use crate::dpi::{PhysicalPosition, PhysicalSize};

verus! {

/// Whether a key went down or came up.
#[derive(Clone, Copy, Debug, PartialEq, Eq, Structural)]
pub enum ElementState {
    Pressed,
    Released,
}

/// The meaning of a key, as far as the render loop tells keys apart.
#[derive(Clone, Copy, Debug, PartialEq, Eq, Structural)]
pub enum VirtualKeyCode {
    Escape,
    /// Any other key that has a meaning.
    Other,
}

/// One change of one key.
#[derive(Clone, Copy, Debug, PartialEq, Eq, Structural)]
pub struct KeyboardInput {
    pub state: ElementState,
    /// The key's meaning, if the window system knows one.
    pub virtual_keycode: Option<VirtualKeyCode>,
}

impl KeyboardInput {
    /// The escape key went down.
    pub open spec fn is_escape_press(self) -> bool {
        self.state == ElementState::Pressed && self.virtual_keycode == Some(
            VirtualKeyCode::Escape,
        )
    }
}

/// Something that happened to the window.
#[derive(Clone, Copy, Debug, PartialEq, Eq, Structural)]
pub enum WindowEvent {
    /// The user asked to close the window.
    CloseRequested,
    /// The window has a new size.
    Resized(PhysicalSize),
    /// The window moved to a display of another density and has a new size.
    ScaleFactorChanged { new_inner_size: PhysicalSize },
    KeyboardInput { input: KeyboardInput },
    /// The pointer moved over the window.
    CursorMoved { position: PhysicalPosition },
    /// Any other window event.
    Other,
}

/// Something the event loop hands to its handler.
#[derive(Clone, Copy, Debug, PartialEq, Eq, Structural)]
pub enum Event {
    WindowEvent { event: WindowEvent },
    /// The window has to be drawn again.
    RedrawRequested,
    /// All pending redraws have been handled.
    RedrawEventsCleared,
    /// Any other event.
    Other,
}

} // verus!
