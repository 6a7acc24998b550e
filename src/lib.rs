//! Event dispatch for an image window: the state a window shows, the events
//! delivered to it, and the context through which each handler of an event
//! stops propagation, reads the shown image and spawns background tasks.

pub mod cli;
pub mod event;
pub mod event_handler;
pub mod window;

pub use event::{ElementState, Event, KeyboardInput, VirtualKeyCode};
pub use event_handler::{dispatch_event, next_handler, EventHandler, EventHandlerContext};
pub use window::{DecodeError, ImageInfo, PixelFormat, WindowInner};
