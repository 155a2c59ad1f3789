//! Events: what one poll of the console yields, and what the engine is handed.

use vstd::prelude::*;
use crate::keyboard::{PistonKey, TcodKey};
use crate::mouse::{Mouse, MouseButton};

verus! {

/// The console polled a key going down.
pub const KEY_PRESS: u32 = 1;
/// The console polled a key coming up.
pub const KEY_RELEASE: u32 = 2;
/// The console polled a move of the pointer.
pub const MOUSE_MOVE: u32 = 4;
/// The console polled a mouse button going down.
pub const MOUSE_PRESS: u32 = 8;
/// The console polled a mouse button coming up.
pub const MOUSE_RELEASE: u32 = 16;

/// The state that comes with a polled event.
#[derive(Clone, Copy, Debug, PartialEq, Eq, Structural)]
pub enum RawState {
    Key(TcodKey),
    Mouse(Mouse),
}

/// One result of polling the console: the kind of event, as the console's
/// flag for it, and the current state of the device that it is about.
#[derive(Clone, Copy, Debug, PartialEq, Eq, Structural)]
pub struct RawEvent {
    pub flags: u32,
    pub state: RawState,
}

/// A discrete input event, as the engine consumes it.
#[derive(Clone, Copy, Debug, PartialEq, Eq, Structural)]
pub enum Event {
    KeyPress(PistonKey),
    KeyRelease(PistonKey),
    MouseButtonPress(MouseButton),
    MouseButtonRelease(MouseButton),
    /// The pointer's new position.
    CursorMove(i32, i32),
    /// How far the pointer moved since the previous sample.
    RelativeMove(i64, i64),
}

impl Event {
    /// Every key that the event carries is one of the engine's.
    pub open spec fn wf(&self) -> bool {
        match *self {
            Event::KeyPress(key) => key.wf(),
            Event::KeyRelease(key) => key.wf(),
            _ => true,
        }
    }
}

} // verus!
