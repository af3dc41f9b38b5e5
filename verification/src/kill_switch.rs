//! Hardware fallback for P0/P1 when the compositor's event loop does not answer: modifier
//! tracking and matching on raw evdev codes and on PC scancodes read from the VT.

use vstd::prelude::*;

use crate::emergency::{match_evdev, spec_match_evdev, EmergencyAction, EmergencyContext};
use crate::state::request_exit;

verus! {

pub const EV_KEY: u16 = 1;
pub const KEY_RESERVED: u16 = 0;

/// Modifiers held on the evdev keyboards.
#[derive(Clone, Copy, Debug, PartialEq, Eq, Structural)]
pub struct EvdevMods {
    pub ctrl: bool,
    pub alt: bool,
    pub shift: bool,
}

/// Modifiers held according to the VT's scancode stream.
#[derive(Clone, Copy, Debug, PartialEq, Eq, Structural)]
pub struct ScancodeMods {
    pub ctrl: bool,
    pub alt: bool,
    pub shift: bool,
}

pub open spec fn spec_update_evdev_mods(m: EvdevMods, code: u16, pressed: bool) -> EvdevMods {
    if code == 29 || code == 97 {
        EvdevMods { ctrl: pressed, ..m }
    } else if code == 56 || code == 100 {
        EvdevMods { alt: pressed, ..m }
    } else if code == 42 || code == 54 {
        EvdevMods { shift: pressed, ..m }
    } else {
        m
    }
}

/// Left/right Ctrl, Alt and Shift key codes set or clear their modifier.
pub fn update_evdev_mods(mods: &mut EvdevMods, code: u16, pressed: bool)
    ensures
        *final(mods) == spec_update_evdev_mods(*old(mods), code, pressed),
{
    if code == 29 || code == 97 {
        mods.ctrl = pressed;
    } else if code == 56 || code == 100 {
        mods.alt = pressed;
    } else if code == 42 || code == 54 {
        mods.shift = pressed;
    }
}

/// One evdev event (`type_`, `code`, `value`): key events update the modifiers and may
/// match an emergency combo; other events and the reserved code are ignored.
pub fn evdev_event(mods: &mut EvdevMods, type_: u16, code: u16, value: i32) -> (r: Option<EmergencyAction>)
    ensures
        type_ != EV_KEY || code == KEY_RESERVED ==> r is None && *final(mods) == *old(mods),
        type_ == EV_KEY && code != KEY_RESERVED ==> ({
            let m = spec_update_evdev_mods(*old(mods), code, value != 0);
            &&& *final(mods) == m
            &&& r == spec_match_evdev(m.ctrl, m.alt, m.shift, value != 0, code)
        }),
{
    if type_ != EV_KEY || code == KEY_RESERVED {
        return None;
    }
    update_evdev_mods(mods, code, value != 0);
    match_evdev(mods.ctrl, mods.alt, mods.shift, value != 0, code)
}

pub open spec fn spec_match_scancode(byte: u8, m: ScancodeMods) -> (ScancodeMods, Option<EmergencyAction>) {
    if byte >= 0x80 {
        let k = (byte - 0x80) as u8;
        if k == 0x1D {
            (ScancodeMods { ctrl: false, ..m }, None)
        } else if k == 0x38 {
            (ScancodeMods { alt: false, ..m }, None)
        } else if k == 0x2A || k == 0x36 {
            (ScancodeMods { shift: false, ..m }, None)
        } else {
            (m, None)
        }
    } else if byte == 0x1D {
        (ScancodeMods { ctrl: true, ..m }, None)
    } else if byte == 0x38 {
        (ScancodeMods { alt: true, ..m }, None)
    } else if byte == 0x2A || byte == 0x36 {
        (ScancodeMods { shift: true, ..m }, None)
    } else if byte == 0x53 {
        (
            m,
            if m.ctrl && m.alt && m.shift {
                Some(EmergencyAction::ForceQuit)
            } else if m.ctrl && m.alt {
                Some(EmergencyAction::ToggleOverlay)
            } else {
                None
            },
        )
    } else if 0x3B <= byte <= 0x44 && m.ctrl && m.alt && !m.shift {
        (m, Some(EmergencyAction::SwitchVt((byte - 0x3B + 1) as u8)))
    } else if (byte == 0x57 || byte == 0x58) && m.ctrl && m.alt && !m.shift {
        (m, Some(EmergencyAction::SwitchVt(if byte == 0x57 { 11u8 } else { 12u8 })))
    } else {
        (m, None)
    }
}

/// One byte of the VT's scancode stream (medium-raw mode): break codes (high bit) release
/// a modifier; make codes press one, or match Delete (0x53) and F1..F12 (0x3B..=0x44 for
/// F1..F10, 0x57 and 0x58 for F11 and F12).
pub fn match_scancode(byte: u8, extended: bool, mods: &mut ScancodeMods) -> (r: Option<EmergencyAction>)
    ensures
        (*final(mods), r) == spec_match_scancode(byte, *old(mods)),
{
    if byte & 0x80 != 0 {
        assert(byte & 0x80 != 0 <==> byte >= 0x80) by (bit_vector);
        assert(byte >= 0x80 ==> byte & 0x7F == byte - 0x80) by (bit_vector);
        let k = byte & 0x7F;
        if k == 0x1D || k == 0x9D {
            mods.ctrl = false;
        } else if k == 0x38 || k == 0xB8 {
            mods.alt = false;
        } else if k == 0x2A || k == 0x36 {
            mods.shift = false;
        }
        return None;
    }
    assert(byte & 0x80 == 0 ==> byte < 0x80) by (bit_vector);
    if byte == 0x1D || byte == 0x9D {
        mods.ctrl = true;
        None
    } else if byte == 0x38 || byte == 0xB8 {
        mods.alt = true;
        None
    } else if byte == 0x2A || byte == 0x36 {
        mods.shift = true;
        None
    } else if byte == 0x53 {
        if mods.ctrl && mods.alt && mods.shift {
            Some(EmergencyAction::ForceQuit)
        } else if mods.ctrl && mods.alt {
            Some(EmergencyAction::ToggleOverlay)
        } else {
            None
        }
    } else if 0x3B <= byte && byte <= 0x44 && mods.ctrl && mods.alt && !mods.shift {
        Some(EmergencyAction::SwitchVt(byte - 0x3B + 1))
    } else if (byte == 0x57 || byte == 0x58) && mods.ctrl && mods.alt && !mods.shift {
        Some(EmergencyAction::SwitchVt(if byte == 0x57 { 11 } else { 12 }))
    } else {
        None
    }
}

/// Scancode stream state after `bytes`, and the actions matched, in order.
pub open spec fn spec_scan_bytes(bytes: Seq<u8>, extended: bool, m: ScancodeMods) -> (bool, ScancodeMods, Seq<EmergencyAction>)
    decreases bytes.len(),
{
    if bytes.len() == 0 {
        (extended, m, seq![])
    } else {
        let b = bytes.last();
        let (e0, m0, acts) = spec_scan_bytes(bytes.drop_last(), extended, m);
        if b == 0xE0 {
            (true, m0, acts)
        } else {
            let (m1, a) = spec_match_scancode(b, m0);
            (false, m1, match a {
                Some(x) => acts.push(x),
                None => acts,
            })
        }
    }
}

/// Feeds bytes read from the VT: `0xE0` marks the next code as extended; every other byte
/// goes through `match_scancode`.
pub fn scan_bytes(bytes: &Vec<u8>, extended: &mut bool, mods: &mut ScancodeMods) -> (r: Vec<EmergencyAction>)
    ensures
        (*final(extended), *final(mods), r@) == spec_scan_bytes(bytes@, *old(extended), *old(mods)),
{
    let mut out: Vec<EmergencyAction> = Vec::new();
    let mut i: usize = 0;
    while i < bytes.len()
        invariant
            i <= bytes.len(),
            (*extended, *mods, out@) == spec_scan_bytes(bytes@.take(i as int), *old(extended), *old(mods)),
        decreases bytes.len() - i,
    {
        let b = bytes[i];
        assert(bytes@.take(i + 1).drop_last() =~= bytes@.take(i as int));
        if b == 0xE0 {
            *extended = true;
        } else {
            if let Some(action) = match_scancode(b, *extended, mods) {
                out.push(action);
            }
            *extended = false;
        }
        i = i + 1;
    }
    assert(bytes@.take(bytes.len() as int) =~= bytes@);
    out
}

/// What the hardware thread asks of the rest of the program for an action.
#[derive(Clone, Copy, Debug, PartialEq, Eq, Structural)]
pub enum HardwareDispatch {
    /// The exit flag is set: terminate the process.
    ForceQuit,
    /// A panel toggle was requested; `true`: wake the main loop.
    ToggleRequested(bool),
    /// Activate this VT.
    SwitchVt(u8),
}

/// Acts on an action matched by the hardware thread: sets the exit flag or requests a
/// panel toggle.
pub fn dispatch_hardware(action: EmergencyAction, ctx: &EmergencyContext) -> (r: HardwareDispatch)
    ensures
        r == match action {
            EmergencyAction::ForceQuit => HardwareDispatch::ForceQuit,
            EmergencyAction::ToggleOverlay => HardwareDispatch::ToggleRequested(ctx.overlay.wakes_loop()),
            EmergencyAction::SwitchVt(vt) => HardwareDispatch::SwitchVt(vt),
        },
{
    match action {
        EmergencyAction::ForceQuit => {
            request_exit(&ctx.exit_flag);
            HardwareDispatch::ForceQuit
        },
        EmergencyAction::ToggleOverlay => HardwareDispatch::ToggleRequested(ctx.overlay.request_toggle()),
        EmergencyAction::SwitchVt(vt) => HardwareDispatch::SwitchVt(vt),
    }
}

/// Keyboard capability of an input device, from the second character of its sysfs `ev`
/// bitmap (trimmed): kept when it is `'1'` or above; a device whose bitmap could not be
/// read is kept too.
pub open spec fn spec_keeps_device(cap: Option<Seq<char>>) -> bool {
    match cap {
        None => true,
        Some(c) => c.len() >= 2 && c[1] >= '1',
    }
}

pub fn keeps_device(cap: Option<&str>) -> (r: bool)
    ensures
        r == spec_keeps_device(
            match cap {
                Some(c) => Some(c@),
                None => None,
            },
        ),
{
    match cap {
        None => true,
        Some(c) => c.unicode_len() >= 2 && c.get_char(1) >= '1',
    }
}

} // verus!
