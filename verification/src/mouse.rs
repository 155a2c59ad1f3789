//! The mouse: what the console reports of it, and the button an event names.

use vstd::prelude::*;

verus! {

/// The mouse part of one poll: where the pointer is and which buttons are
/// held down.
#[derive(Clone, Copy, Debug, PartialEq, Eq, Structural)]
pub struct Mouse {
    pub x: i32,
    pub y: i32,
    pub lbutton: bool,
    pub mbutton: bool,
    pub rbutton: bool,
}

impl Default for Mouse {
    /// The pointer at the origin with no button held.
    fn default() -> (mouse: Mouse)
        ensures
            mouse == Mouse::origin(),
    {
        Mouse { x: 0, y: 0, lbutton: false, mbutton: false, rbutton: false }
    }
}

impl Mouse {
    /// The pointer at the origin with no button held.
    pub open spec fn origin() -> Mouse {
        Mouse { x: 0, y: 0, lbutton: false, mbutton: false, rbutton: false }
    }
}

/// A mouse button of the engine.
#[derive(Clone, Copy, Debug, PartialEq, Eq, Structural)]
pub enum MouseButton {
    Unknown,
    Left,
    Right,
    Middle,
}

/// The button that changed between two polls: the first that differs of left,
/// middle and right, in that order, and `Unknown` where none does.
pub open spec fn map_mouse(prev_state: Mouse, state: Mouse) -> MouseButton {
    if prev_state.lbutton != state.lbutton {
        MouseButton::Left
    } else if prev_state.mbutton != state.mbutton {
        MouseButton::Middle
    } else if prev_state.rbutton != state.rbutton {
        MouseButton::Right
    } else {
        MouseButton::Unknown
    }
}

/// Maps a change of the mouse state to the engine's button.
///
/// The console reports which buttons are down, not which one moved, so the
/// new state is held against the previous one. Where several buttons differ
/// the left one wins over the middle one, and that over the right one.
pub fn tcod_map_mouse(prev_state: Mouse, state: &Mouse) -> (button: MouseButton)
    ensures
        button == map_mouse(prev_state, *state),
{
    if prev_state.lbutton != state.lbutton {
        MouseButton::Left
    } else if prev_state.mbutton != state.mbutton {
        MouseButton::Middle
    } else if prev_state.rbutton != state.rbutton {
        MouseButton::Right
    } else {
        MouseButton::Unknown
    }
}

/// The left button wins: whenever it differs, the change is reported as
/// `Left`, whatever the other two buttons did.
pub proof fn lemma_left_button_first(prev_state: Mouse, state: Mouse)
    requires
        prev_state.lbutton != state.lbutton,
    ensures
        map_mouse(prev_state, state) == MouseButton::Left,
{
}

/// A change of the right button alone is reported as `Right`, one of the
/// middle button alone as `Middle`.
pub proof fn lemma_single_button_change(prev_state: Mouse, state: Mouse)
    requires
        prev_state.lbutton == state.lbutton,
    ensures
        prev_state.mbutton == state.mbutton && prev_state.rbutton != state.rbutton
            ==> map_mouse(prev_state, state) == MouseButton::Right,
        prev_state.mbutton != state.mbutton
            ==> map_mouse(prev_state, state) == MouseButton::Middle,
{
}

/// `Unknown` is reported exactly when no button differs; the pointer's
/// position plays no part.
pub proof fn lemma_unknown_iff_no_button_differs(prev_state: Mouse, state: Mouse)
    ensures
        map_mouse(prev_state, state) == MouseButton::Unknown <==> (prev_state.lbutton
            == state.lbutton && prev_state.mbutton == state.mbutton && prev_state.rbutton
            == state.rbutton),
{
}

} // verus!
