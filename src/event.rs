use vstd::prelude::*;

verus! {

/// Whether a key went down or came up.
#[derive(Clone, Copy, Debug, PartialEq, Eq, Structural)]
pub enum ElementState {
    Pressed,
    Released,
}

/// The keys that handlers commonly look for; every other key carries its raw code.
#[derive(Clone, Copy, Debug, PartialEq, Eq, Structural)]
pub enum VirtualKeyCode {
    Escape,
    Return,
    Space,
    Left,
    Right,
    Up,
    Down,
    Other(u32),
}

/// One keyboard input: the scan code, the key it maps to (if any) and its state.
#[derive(Clone, Copy, Debug, PartialEq, Eq, Structural)]
pub struct KeyboardInput {
    pub scan_code: u32,
    pub virtual_keycode: Option<VirtualKeyCode>,
    pub state: ElementState,
}

/// An event delivered to the handlers of one window.
#[derive(Clone, Copy, Debug, PartialEq, Eq, Structural)]
pub enum Event {
    KeyboardInput { window_id: u64, input: KeyboardInput },
    Resized { window_id: u64, width: u32, height: u32 },
    Focused { window_id: u64, focused: bool },
    CloseRequested { window_id: u64 },
    Destroyed { window_id: u64 },
}

impl Event {
    /// The window that an event concerns.
    pub open spec fn spec_window_id(self) -> u64 {
        match self {
            Event::KeyboardInput { window_id, .. } => window_id,
            Event::Resized { window_id, .. } => window_id,
            Event::Focused { window_id, .. } => window_id,
            Event::CloseRequested { window_id } => window_id,
            Event::Destroyed { window_id } => window_id,
        }
    }

    /// Whether the event is the Escape key going down.
    pub open spec fn spec_is_escape_press(self) -> bool {
        match self {
            Event::KeyboardInput { input, .. } => input.virtual_keycode == Some(VirtualKeyCode::Escape)
                && input.state == ElementState::Pressed,
            _ => false,
        }
    }

    pub fn window_id(&self) -> (r: u64)
        ensures
            r == self.spec_window_id(),
    {
        match self {
            Event::KeyboardInput { window_id, .. } => *window_id,
            Event::Resized { window_id, .. } => *window_id,
            Event::Focused { window_id, .. } => *window_id,
            Event::CloseRequested { window_id } => *window_id,
            Event::Destroyed { window_id } => *window_id,
        }
    }

    /// True exactly for a press of the Escape key, the usual request to close an image window.
    pub fn is_escape_press(&self) -> (r: bool)
        ensures
            r == self.spec_is_escape_press(),
    {
        match self {
            Event::KeyboardInput { input, .. } => {
                match input.virtual_keycode {
                    Some(VirtualKeyCode::Escape) => match input.state {
                        ElementState::Pressed => true,
                        ElementState::Released => false,
                    },
                    _ => false,
                }
            },
            _ => false,
        }
    }
}

} // verus!
