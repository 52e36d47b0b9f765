//! The events of the window system that the renderer tells apart.

use vstd::prelude::*;
use crate::surface::PhysicalSize;

verus! {

/// Whether a key went down or came up.
#[derive(Clone, Copy, Debug, PartialEq, Eq, Structural)]
pub enum ElementState {
    Pressed,
    Released,
}

/// The keys that mean something.
#[derive(Clone, Copy, Debug, PartialEq, Eq, Structural)]
pub enum VirtualKeyCode {
    Escape,
    Space,
    /// Any other key.
    Other,
}

/// An event of one window.
#[derive(Clone, Copy, Debug, PartialEq, Eq, Structural)]
pub enum WindowEvent {
    CloseRequested,
    KeyboardInput { state: ElementState, virtual_keycode: Option<VirtualKeyCode> },
    Resized(PhysicalSize),
    ScaleFactorChanged { new_inner_size: PhysicalSize },
    /// Any other event of the window.
    Other,
}

/// An event of the event loop.
#[derive(Clone, Copy, Debug, PartialEq, Eq, Structural)]
pub enum Event {
    /// An event of a window; `own_window` says whether it is the
    /// renderer's.
    WindowEvent { own_window: bool, event: WindowEvent },
    RedrawRequested,
    MainEventsCleared,
    /// Any other event.
    Other,
}

/// The space key going down or coming up.
pub open spec fn space_key(state: ElementState) -> WindowEvent {
    WindowEvent::KeyboardInput { state, virtual_keycode: Some(VirtualKeyCode::Space) }
}

impl WindowEvent {
    /// Whether this is the space key going down or coming up.
    pub open spec fn is_space_key(self) -> bool {
        self matches WindowEvent::KeyboardInput { virtual_keycode, .. } && virtual_keycode == Some(
            VirtualKeyCode::Space,
        )
    }

    /// Whether this is the space key coming up.
    pub open spec fn is_space_released(self) -> bool {
        self matches WindowEvent::KeyboardInput { state, virtual_keycode } && virtual_keycode
            == Some(VirtualKeyCode::Space) && state == ElementState::Released
    }

    /// Whether this event ends the event loop: the window is asked to
    /// close, or the escape key goes down.
    pub open spec fn is_exit(self) -> bool {
        self is CloseRequested || (self matches WindowEvent::KeyboardInput {
            state,
            virtual_keycode,
        } && virtual_keycode == Some(VirtualKeyCode::Escape) && state == ElementState::Pressed)
    }

    /// The size that the window has taken, if this event tells of one.
    pub open spec fn new_size(self) -> Option<PhysicalSize> {
        match self {
            WindowEvent::Resized(size) => Some(size),
            WindowEvent::ScaleFactorChanged { new_inner_size } => Some(new_inner_size),
            _ => None,
        }
    }
}

} // verus!
