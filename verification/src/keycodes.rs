//! Codes of the engine's keys.
//!
//! The engine identifies a key by a 32-bit code. A printable key has the code
//! point of its unshifted character; the others lie above `0x4000_0000`.
//! Listed here are the keys that the special-key table of
//! [`tcod_map_key`](crate::keyboard::tcod_map_key) names, and the first digit.

use vstd::prelude::*;

verus! {

/// The sentinel for a key that the engine does not know.
pub const UNKNOWN: u32 = 0x00;
pub const BACKSPACE: u32 = 0x08;
pub const TAB: u32 = 0x09;
pub const RETURN: u32 = 0x0D;
pub const ESCAPE: u32 = 0x1B;
pub const SPACE: u32 = 0x20;

/// The digit `0`; the digits `1` to `9` follow it.
pub const D0: u32 = 0x30;
pub const DELETE: u32 = 0x7F;
pub const CAPS_LOCK: u32 = 0x4000_0039;
pub const F1: u32 = 0x4000_003A;
pub const F2: u32 = 0x4000_003B;
pub const F3: u32 = 0x4000_003C;
pub const F4: u32 = 0x4000_003D;
pub const F5: u32 = 0x4000_003E;
pub const F6: u32 = 0x4000_003F;
pub const F7: u32 = 0x4000_0040;
pub const F8: u32 = 0x4000_0041;
pub const F9: u32 = 0x4000_0042;
pub const F10: u32 = 0x4000_0043;
pub const F11: u32 = 0x4000_0044;
pub const F12: u32 = 0x4000_0045;
pub const PRINT_SCREEN: u32 = 0x4000_0046;
pub const SCROLL_LOCK: u32 = 0x4000_0047;
pub const PAUSE: u32 = 0x4000_0048;
pub const INSERT: u32 = 0x4000_0049;
pub const HOME: u32 = 0x4000_004A;
pub const PAGE_UP: u32 = 0x4000_004B;
pub const END: u32 = 0x4000_004D;
pub const PAGE_DOWN: u32 = 0x4000_004E;
pub const RIGHT: u32 = 0x4000_004F;
pub const LEFT: u32 = 0x4000_0050;
pub const DOWN: u32 = 0x4000_0051;
pub const UP: u32 = 0x4000_0052;
pub const NUM_LOCK_CLEAR: u32 = 0x4000_0053;
pub const NUM_PAD_DIVIDE: u32 = 0x4000_0054;
pub const NUM_PAD_MULTIPLY: u32 = 0x4000_0055;
pub const NUM_PAD_MINUS: u32 = 0x4000_0056;
pub const NUM_PAD_PLUS: u32 = 0x4000_0057;
pub const NUM_PAD_ENTER: u32 = 0x4000_0058;
pub const NUM_PAD1: u32 = 0x4000_0059;
pub const NUM_PAD2: u32 = 0x4000_005A;
pub const NUM_PAD3: u32 = 0x4000_005B;
pub const NUM_PAD4: u32 = 0x4000_005C;
pub const NUM_PAD5: u32 = 0x4000_005D;
pub const NUM_PAD6: u32 = 0x4000_005E;
pub const NUM_PAD7: u32 = 0x4000_005F;
pub const NUM_PAD8: u32 = 0x4000_0060;
pub const NUM_PAD9: u32 = 0x4000_0061;
pub const NUM_PAD0: u32 = 0x4000_0062;
pub const APPLICATION: u32 = 0x4000_0065;
pub const NUM_PAD_DECIMAL: u32 = 0x4000_00DC;
pub const L_CTRL: u32 = 0x4000_00E0;
pub const L_SHIFT: u32 = 0x4000_00E1;
pub const L_ALT: u32 = 0x4000_00E2;
pub const L_GUI: u32 = 0x4000_00E3;
pub const R_GUI: u32 = 0x4000_00E7;

} // verus!
