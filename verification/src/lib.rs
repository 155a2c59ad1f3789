//! An adapter between a console that is polled for its current keyboard and
//! mouse state and a game-loop engine that wants discrete input events.

pub mod event;
pub mod keyboard;
pub mod keycodes;
pub mod mouse;
pub mod window;

pub use crate::event::{Event, RawEvent, RawState};
pub use crate::keyboard::{tcod_map_key, KeyCode, PistonKey, TcodKey};
pub use crate::mouse::{tcod_map_mouse, Mouse, MouseButton};
pub use crate::window::{Console, Size, TcodWindow, WindowSettings};
