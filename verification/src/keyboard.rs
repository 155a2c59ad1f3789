//! Keys: what the console reports of the keyboard, and the engine's key for it.

use vstd::prelude::*;
use crate::keycodes;

verus! {

/// The console's code for a key. Keys that print a character are reported as
/// `Char` (or `Number0` to `Number9`, or `Text`), with the character beside the
/// code; every other variant is one special key.
#[derive(Clone, Copy, Debug, PartialEq, Eq, Structural)]
pub enum KeyCode {
    NoKey,
    Escape,
    Backspace,
    Tab,
    Enter,
    Shift,
    Control,
    Alt,
    Pause,
    CapsLock,
    PageUp,
    PageDown,
    End,
    Home,
    Up,
    Left,
    Right,
    Down,
    PrintScreen,
    Insert,
    Delete,
    LeftWin,
    RightWin,
    Apps,
    Number0,
    Number1,
    Number2,
    Number3,
    Number4,
    Number5,
    Number6,
    Number7,
    Number8,
    Number9,
    NumPad0,
    NumPad1,
    NumPad2,
    NumPad3,
    NumPad4,
    NumPad5,
    NumPad6,
    NumPad7,
    NumPad8,
    NumPad9,
    NumPadAdd,
    NumPadSubtract,
    NumPadDivide,
    NumPadMultiply,
    NumPadDecimal,
    NumPadEnter,
    F1,
    F2,
    F3,
    F4,
    F5,
    F6,
    F7,
    F8,
    F9,
    F10,
    F11,
    F12,
    NumLock,
    ScrollLock,
    Spacebar,
    Char,
    Text,
}

/// The keyboard part of one poll: the key's code and the character it prints.
#[derive(Clone, Copy, Debug, PartialEq, Eq, Structural)]
pub struct TcodKey {
    pub code: KeyCode,
    pub printable: char,
}

/// A key of the engine, identified by its code. The keys that the engine
/// knows are those of `wf`; code 0 is the unknown key.
#[derive(Clone, Copy, Debug, PartialEq, Eq, Structural)]
pub struct PistonKey {
    pub code: u32,
}

/// Whether `raw` is the code of a key in the engine's table. The codes come
/// in runs; beside each run stand its first and last key.
pub open spec fn key_table_has(raw: u32) -> bool {
    ||| raw == 0x00  // Unknown
    ||| 0x08 <= raw <= 0x09  // Backspace, Tab
    ||| raw == 0x0D  // Return
    ||| raw == 0x1B  // Escape
    ||| 0x20 <= raw <= 0x40  // Space to At
    ||| 0x5B <= raw <= 0x7A  // LeftBracket to Z
    ||| raw == 0x7F  // Delete
    ||| 0x4000_0039 <= raw <= 0x4000_004B  // CapsLock to PageUp
    ||| 0x4000_004D <= raw <= 0x4000_0063  // End to NumPadPeriod
    ||| 0x4000_0065 <= raw <= 0x4000_0081  // Application to VolumeDown
    ||| 0x4000_0085 <= raw <= 0x4000_0086  // NumPadComma, NumPadEqualsAS400
    ||| 0x4000_0099 <= raw <= 0x4000_00A4  // AltErase to ExSel
    ||| 0x4000_00B0 <= raw <= 0x4000_00DD  // NumPad00 to NumPadHexadecimal
    ||| 0x4000_00E0 <= raw <= 0x4000_00E7  // LCtrl to RGui
    ||| 0x4000_0101 <= raw <= 0x4000_011A  // Mode to Sleep
}

/// The code of the key that the engine's table gives for `raw`: `raw` itself
/// where it is a key's code, the unknown key's otherwise.
pub open spec fn table_code(raw: u32) -> u32 {
    if key_table_has(raw) {
        raw
    } else {
        keycodes::UNKNOWN
    }
}

/// The engine's key for a special key of the console, `None` for a code that
/// stands for a printed character.
pub open spec fn special_key(code: KeyCode) -> Option<u32> {
    match code {
        KeyCode::NoKey => Some(keycodes::UNKNOWN),
        KeyCode::Escape => Some(keycodes::ESCAPE),
        KeyCode::Backspace => Some(keycodes::BACKSPACE),
        KeyCode::Tab => Some(keycodes::TAB),
        KeyCode::Enter => Some(keycodes::RETURN),
        KeyCode::Shift => Some(keycodes::L_SHIFT),
        KeyCode::Control => Some(keycodes::L_CTRL),
        KeyCode::Alt => Some(keycodes::L_ALT),
        KeyCode::Pause => Some(keycodes::PAUSE),
        KeyCode::CapsLock => Some(keycodes::CAPS_LOCK),
        KeyCode::PageUp => Some(keycodes::PAGE_UP),
        KeyCode::PageDown => Some(keycodes::PAGE_DOWN),
        KeyCode::End => Some(keycodes::END),
        KeyCode::Home => Some(keycodes::HOME),
        KeyCode::Up => Some(keycodes::UP),
        KeyCode::Left => Some(keycodes::LEFT),
        KeyCode::Right => Some(keycodes::RIGHT),
        KeyCode::Down => Some(keycodes::DOWN),
        KeyCode::PrintScreen => Some(keycodes::PRINT_SCREEN),
        KeyCode::Insert => Some(keycodes::INSERT),
        KeyCode::Delete => Some(keycodes::DELETE),
        KeyCode::LeftWin => Some(keycodes::L_GUI),
        KeyCode::RightWin => Some(keycodes::R_GUI),
        KeyCode::Apps => Some(keycodes::APPLICATION),
        KeyCode::NumPad0 => Some(keycodes::NUM_PAD0),
        KeyCode::NumPad1 => Some(keycodes::NUM_PAD1),
        KeyCode::NumPad2 => Some(keycodes::NUM_PAD2),
        KeyCode::NumPad3 => Some(keycodes::NUM_PAD3),
        KeyCode::NumPad4 => Some(keycodes::NUM_PAD4),
        KeyCode::NumPad5 => Some(keycodes::NUM_PAD5),
        KeyCode::NumPad6 => Some(keycodes::NUM_PAD6),
        KeyCode::NumPad7 => Some(keycodes::NUM_PAD7),
        KeyCode::NumPad8 => Some(keycodes::NUM_PAD8),
        KeyCode::NumPad9 => Some(keycodes::NUM_PAD9),
        KeyCode::NumPadAdd => Some(keycodes::NUM_PAD_PLUS),
        KeyCode::NumPadSubtract => Some(keycodes::NUM_PAD_MINUS),
        KeyCode::NumPadDivide => Some(keycodes::NUM_PAD_DIVIDE),
        KeyCode::NumPadMultiply => Some(keycodes::NUM_PAD_MULTIPLY),
        KeyCode::NumPadDecimal => Some(keycodes::NUM_PAD_DECIMAL),
        KeyCode::NumPadEnter => Some(keycodes::NUM_PAD_ENTER),
        KeyCode::F1 => Some(keycodes::F1),
        KeyCode::F2 => Some(keycodes::F2),
        KeyCode::F3 => Some(keycodes::F3),
        KeyCode::F4 => Some(keycodes::F4),
        KeyCode::F5 => Some(keycodes::F5),
        KeyCode::F6 => Some(keycodes::F6),
        KeyCode::F7 => Some(keycodes::F7),
        KeyCode::F8 => Some(keycodes::F8),
        KeyCode::F9 => Some(keycodes::F9),
        KeyCode::F10 => Some(keycodes::F10),
        KeyCode::F11 => Some(keycodes::F11),
        KeyCode::F12 => Some(keycodes::F12),
        KeyCode::NumLock => Some(keycodes::NUM_LOCK_CLEAR),
        KeyCode::ScrollLock => Some(keycodes::SCROLL_LOCK),
        KeyCode::Spacebar => Some(keycodes::SPACE),
        _ => None,
    }
}

/// The character by which a printing key is looked up: an upper-case ASCII
/// letter gives its lower-case letter, any other character itself. The engine
/// tells the shift state apart from the key.
pub open spec fn fold_case(c: char) -> u32 {
    if 'A' <= c <= 'Z' {
        (c as u32 + 32) as u32
    } else {
        c as u32
    }
}

/// The code of the engine's key for one polled key.
pub open spec fn map_key(key: TcodKey) -> u32 {
    match special_key(key.code) {
        Some(code) => code,
        None => table_code(fold_case(key.printable)),
    }
}

impl PistonKey {
    /// A key that the engine's table holds.
    pub open spec fn wf(&self) -> bool {
        key_table_has(self.code)
    }

    /// The engine's key for a raw code: the unknown key where the table has
    /// no key of that code.
    pub fn from_code(raw: u32) -> (key: PistonKey)
        ensures
            key.code == table_code(raw),
            key.wf(),
    {
        PistonKey { code: lookup_key_code(raw) }
    }
}

/// Looks `raw` up in the engine's key table with `input::Key::from(u32)` and
/// gives the code of the key found, by `u32::from(input::Key)`.
///
/// Not verified: the contract is taken from the engine's source. There
/// `Key::from` maps the discriminant of each key to that key and every other
/// number to `Key::Unknown`, and `u32::from` gives a key's discriminant, which
/// is 0 for `Key::Unknown`. The discriminants are the runs of `key_table_has`.
#[verifier::external_body]
fn lookup_key_code(raw: u32) -> (code: u32)
    ensures
        code == table_code(raw),
{
    u32::from(input::Key::from(raw))
}

/// Whether `raw` is the code of a key in the engine's table, computed here
/// without asking the engine.
pub fn key_table_contains(raw: u32) -> (found: bool)
    ensures
        found == key_table_has(raw),
{
    if raw < 0x4000_0000 {
        raw == 0x00 || raw == 0x08 || raw == 0x09 || raw == 0x0D || raw == 0x1B
            || (0x20 <= raw && raw <= 0x40) || (0x5B <= raw && raw <= 0x7A) || raw == 0x7F
    } else {
        let low: u32 = raw - 0x4000_0000;
        (0x39 <= low && low <= 0x11A) && low != 0x4C && low != 0x64
            && !(0x82 <= low && low <= 0x84) && !(0x87 <= low && low <= 0x98)
            && !(0xA5 <= low && low <= 0xAF) && !(0xDE <= low && low <= 0xDF)
            && !(0xE8 <= low && low <= 0x100)
    }
}

/// Maps a polled key to the engine's key.
///
/// A special key maps by the fixed table, whatever character came with it.
/// Any other code maps by the printed character, an upper-case letter as its
/// lower-case one; a character that is no key of the engine gives the unknown
/// key.
pub fn tcod_map_key(key: TcodKey) -> (piston_key: PistonKey)
    ensures
        piston_key.code == map_key(key),
        piston_key.wf(),
{
    match key.code {
        KeyCode::NoKey => PistonKey { code: keycodes::UNKNOWN },
        KeyCode::Escape => PistonKey { code: keycodes::ESCAPE },
        KeyCode::Backspace => PistonKey { code: keycodes::BACKSPACE },
        KeyCode::Tab => PistonKey { code: keycodes::TAB },
        KeyCode::Enter => PistonKey { code: keycodes::RETURN },
        KeyCode::Shift => PistonKey { code: keycodes::L_SHIFT },
        KeyCode::Control => PistonKey { code: keycodes::L_CTRL },
        KeyCode::Alt => PistonKey { code: keycodes::L_ALT },
        KeyCode::Pause => PistonKey { code: keycodes::PAUSE },
        KeyCode::CapsLock => PistonKey { code: keycodes::CAPS_LOCK },
        KeyCode::PageUp => PistonKey { code: keycodes::PAGE_UP },
        KeyCode::PageDown => PistonKey { code: keycodes::PAGE_DOWN },
        KeyCode::End => PistonKey { code: keycodes::END },
        KeyCode::Home => PistonKey { code: keycodes::HOME },
        KeyCode::Up => PistonKey { code: keycodes::UP },
        KeyCode::Left => PistonKey { code: keycodes::LEFT },
        KeyCode::Right => PistonKey { code: keycodes::RIGHT },
        KeyCode::Down => PistonKey { code: keycodes::DOWN },
        KeyCode::PrintScreen => PistonKey { code: keycodes::PRINT_SCREEN },
        KeyCode::Insert => PistonKey { code: keycodes::INSERT },
        KeyCode::Delete => PistonKey { code: keycodes::DELETE },
        KeyCode::LeftWin => PistonKey { code: keycodes::L_GUI },
        KeyCode::RightWin => PistonKey { code: keycodes::R_GUI },
        KeyCode::Apps => PistonKey { code: keycodes::APPLICATION },
        KeyCode::NumPad0 => PistonKey { code: keycodes::NUM_PAD0 },
        KeyCode::NumPad1 => PistonKey { code: keycodes::NUM_PAD1 },
        KeyCode::NumPad2 => PistonKey { code: keycodes::NUM_PAD2 },
        KeyCode::NumPad3 => PistonKey { code: keycodes::NUM_PAD3 },
        KeyCode::NumPad4 => PistonKey { code: keycodes::NUM_PAD4 },
        KeyCode::NumPad5 => PistonKey { code: keycodes::NUM_PAD5 },
        KeyCode::NumPad6 => PistonKey { code: keycodes::NUM_PAD6 },
        KeyCode::NumPad7 => PistonKey { code: keycodes::NUM_PAD7 },
        KeyCode::NumPad8 => PistonKey { code: keycodes::NUM_PAD8 },
        KeyCode::NumPad9 => PistonKey { code: keycodes::NUM_PAD9 },
        KeyCode::NumPadAdd => PistonKey { code: keycodes::NUM_PAD_PLUS },
        KeyCode::NumPadSubtract => PistonKey { code: keycodes::NUM_PAD_MINUS },
        KeyCode::NumPadDivide => PistonKey { code: keycodes::NUM_PAD_DIVIDE },
        KeyCode::NumPadMultiply => PistonKey { code: keycodes::NUM_PAD_MULTIPLY },
        KeyCode::NumPadDecimal => PistonKey { code: keycodes::NUM_PAD_DECIMAL },
        KeyCode::NumPadEnter => PistonKey { code: keycodes::NUM_PAD_ENTER },
        KeyCode::F1 => PistonKey { code: keycodes::F1 },
        KeyCode::F2 => PistonKey { code: keycodes::F2 },
        KeyCode::F3 => PistonKey { code: keycodes::F3 },
        KeyCode::F4 => PistonKey { code: keycodes::F4 },
        KeyCode::F5 => PistonKey { code: keycodes::F5 },
        KeyCode::F6 => PistonKey { code: keycodes::F6 },
        KeyCode::F7 => PistonKey { code: keycodes::F7 },
        KeyCode::F8 => PistonKey { code: keycodes::F8 },
        KeyCode::F9 => PistonKey { code: keycodes::F9 },
        KeyCode::F10 => PistonKey { code: keycodes::F10 },
        KeyCode::F11 => PistonKey { code: keycodes::F11 },
        KeyCode::F12 => PistonKey { code: keycodes::F12 },
        KeyCode::NumLock => PistonKey { code: keycodes::NUM_LOCK_CLEAR },
        KeyCode::ScrollLock => PistonKey { code: keycodes::SCROLL_LOCK },
        KeyCode::Spacebar => PistonKey { code: keycodes::SPACE },
        _ => {
            let c: char = key.printable;
            let key_as_u32: u32 = if 'A' <= c && c <= 'Z' {
                c as u32 + 32
            } else {
                c as u32
            };
            PistonKey::from_code(key_as_u32)
        },
    }
}

/// The upper-case form of an ASCII letter, and any other character unchanged.
pub open spec fn ascii_uppercase(c: char) -> char {
    if 'a' <= c <= 'z' {
        (c as u32 - 32) as char
    } else {
        c
    }
}

/// A special key maps by the table alone: the character that came with the
/// code plays no part, and the key found is one of the engine's.
pub proof fn lemma_special_key_ignores_character(code: KeyCode, a: char, b: char)
    requires
        special_key(code) is Some,
    ensures
        map_key(TcodKey { code, printable: a }) == special_key(code)->Some_0,
        map_key(TcodKey { code, printable: a }) == map_key(TcodKey { code, printable: b }),
        key_table_has(special_key(code)->Some_0),
{
}

/// Every key that the mapping gives is a key of the engine's table.
pub proof fn lemma_map_key_in_table(key: TcodKey)
    ensures
        key_table_has(map_key(key)),
{
}

/// Case folding: a character and its upper-case form map to the same key.
pub proof fn lemma_case_folding(code: KeyCode, c: char)
    ensures
        map_key(TcodKey { code, printable: c }) == map_key(
            TcodKey { code, printable: ascii_uppercase(c) },
        ),
{
}

/// A letter of either case maps to the key whose code is the lower-case
/// letter.
pub proof fn lemma_letter_keys(code: KeyCode, c: char)
    requires
        special_key(code) is None,
        'a' <= c <= 'z',
    ensures
        map_key(TcodKey { code, printable: c }) == c as u32,
        map_key(TcodKey { code, printable: ascii_uppercase(c) }) == c as u32,
{
}

/// The digits map to the digit keys, in order from `D0`.
pub proof fn lemma_digit_keys(code: KeyCode, c: char)
    requires
        special_key(code) is None,
        '0' <= c <= '9',
    ensures
        map_key(TcodKey { code, printable: c }) == keycodes::D0 + (c as u32 - '0' as u32),
{
}

} // verus!
