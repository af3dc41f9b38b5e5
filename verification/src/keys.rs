//! Keyboard events as the WM logic reads them: key state, modifiers and X keysym values.

use vstd::prelude::*;

verus! {

#[derive(Clone, Copy, Debug, PartialEq, Eq, Structural)]
pub enum KeyState {
    Released,
    Pressed,
}

/// Modifier state of the compositor keyboard (xkb effective modifiers).
#[derive(Clone, Copy, Debug, PartialEq, Eq, Structural)]
pub struct Modifiers {
    pub ctrl: bool,
    pub alt: bool,
    pub shift: bool,
    pub logo: bool,
}

/// Whether a key event stops at the compositor or reaches the focused client.
#[derive(Clone, Copy, Debug, PartialEq, Eq, Structural)]
pub enum FilterResult {
    Forward,
    Intercept,
}

/// A key event's keysyms: the raw ones of the key and the one after modifiers.
#[derive(Clone, Debug)]
pub struct Keysym {
    pub raw_syms: Vec<u32>,
    pub modified_sym: u32,
}

// X keysym values (as defined by xkbcommon's `keysyms`).
pub const KEY_BACKSPACE: u32 = 0xff08;
pub const KEY_TAB: u32 = 0xff09;
pub const KEY_RETURN: u32 = 0xff0d;
pub const KEY_ESCAPE: u32 = 0xff1b;
pub const KEY_LEFT: u32 = 0xff51;
pub const KEY_UP: u32 = 0xff52;
pub const KEY_RIGHT: u32 = 0xff53;
pub const KEY_DOWN: u32 = 0xff54;
pub const KEY_KP_ENTER: u32 = 0xff8d;
pub const KEY_KP_DELETE: u32 = 0xff9f;
pub const KEY_KP_ADD: u32 = 0xffab;
pub const KEY_KP_SUBTRACT: u32 = 0xffad;
pub const KEY_F1: u32 = 0xffbe;
pub const KEY_F12: u32 = 0xffc9;
pub const KEY_ALT_L: u32 = 0xffe9;
pub const KEY_ALT_R: u32 = 0xffea;
pub const KEY_DELETE: u32 = 0xffff;
pub const KEY_PLUS: u32 = 0x002b;
pub const KEY_MINUS: u32 = 0x002d;
pub const KEY_EQUAL: u32 = 0x003d;
pub const KEY_UPPER_O: u32 = 0x004f;
pub const KEY_LOWER_O: u32 = 0x006f;

} // verus!
