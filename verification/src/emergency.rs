//! Emergency shortcuts: P0 quits (Ctrl+Alt+Shift+Del), P1 toggles the panel (Ctrl+Alt+Del),
//! Ctrl+Alt+F1..F12 switch VT. Matched on the compositor keyboard and on raw evdev codes.

use std::sync::atomic::AtomicBool;
use std::sync::Arc;

use vstd::prelude::*;

use crate::keys::{
    FilterResult, KeyState, Keysym, Modifiers, KEY_DELETE, KEY_DOWN, KEY_EQUAL, KEY_ESCAPE, KEY_F1,
    KEY_F12, KEY_KP_ADD, KEY_KP_DELETE, KEY_KP_SUBTRACT, KEY_LEFT, KEY_LOWER_O, KEY_MINUS, KEY_PLUS,
    KEY_RETURN, KEY_RIGHT, KEY_UP, KEY_UPPER_O,
};
use crate::overlay::OverlayControl;
use crate::state::{request_exit, State};

verus! {

#[derive(Clone, Copy, Debug, PartialEq, Eq, Structural)]
pub enum EmergencyAction {
    /// P0: quit the compositor.
    ForceQuit,
    /// P1: the settings panel.
    ToggleOverlay,
    /// Switch to this VT.
    SwitchVt(u8),
}

/// What emergency actions act on, shared with the evdev thread.
pub struct EmergencyContext {
    pub exit_flag: Arc<AtomicBool>,
    pub overlay: Arc<OverlayControl>,
}

impl EmergencyContext {
    pub fn new(exit_flag: Arc<AtomicBool>, overlay: Arc<OverlayControl>) -> (r: Self)
        ensures
            r.exit_flag == exit_flag,
            r.overlay == overlay,
    {
        EmergencyContext { exit_flag, overlay }
    }
}

pub open spec fn spec_is_delete(sym: u32) -> bool {
    sym == KEY_DELETE || sym == KEY_KP_DELETE
}

/// VT of a function-key keysym: F1 is 1, ..., F12 is 12.
pub open spec fn spec_vt_from_keysym(sym: u32) -> Option<u8> {
    if KEY_F1 <= sym <= KEY_F12 {
        Some((sym - KEY_F1 + 1) as u8)
    } else {
        None
    }
}

pub fn is_delete(sym: u32) -> (r: bool)
    ensures
        r == spec_is_delete(sym),
{
    sym == KEY_DELETE || sym == KEY_KP_DELETE
}

pub fn vt_from_keysym(sym: u32) -> (r: Option<u8>)
    ensures
        r == spec_vt_from_keysym(sym),
{
    if KEY_F1 <= sym && sym <= KEY_F12 {
        Some((sym - KEY_F1 + 1) as u8)
    } else {
        None
    }
}

pub open spec fn spec_match_combo(m: Modifiers, sym: u32) -> Option<EmergencyAction> {
    if !(m.ctrl || m.logo) || !m.alt {
        None
    } else if m.shift {
        if spec_is_delete(sym) {
            Some(EmergencyAction::ForceQuit)
        } else {
            None
        }
    } else if spec_is_delete(sym) {
        Some(EmergencyAction::ToggleOverlay)
    } else {
        match spec_vt_from_keysym(sym) {
            Some(vt) => Some(EmergencyAction::SwitchVt(vt)),
            None => None,
        }
    }
}

/// Ctrl+Alt+F`k` (or Super+Alt+F`k`), without Shift, switches to VT `k` for every `k` in
/// 1..=12 (the keysyms F1..F12 are consecutive); with Shift, or without Ctrl/Super or Alt,
/// a function key switches nothing.
pub proof fn lemma_function_keys_switch_vt(m: Modifiers, k: int)
    requires
        1 <= k <= 12,
    ensures
        (m.ctrl || m.logo) && m.alt && !m.shift ==> spec_match_combo(m, (KEY_F1 + k - 1) as u32) == Some(
            EmergencyAction::SwitchVt(k as u8),
        ),
        !((m.ctrl || m.logo) && m.alt && !m.shift) ==> spec_match_combo(m, (KEY_F1 + k - 1) as u32) is None,
{
    assert(KEY_F12 == KEY_F1 + 11);
}

/// Ctrl (or Super) + Alt combos: with Shift, Delete quits; without, Delete toggles the panel
/// and F1..F12 switch VT.
pub fn match_combo(modifiers: &Modifiers, keysym: &Keysym) -> (r: Option<EmergencyAction>)
    ensures
        r == spec_match_combo(*modifiers, keysym.modified_sym),
{
    if !(modifiers.ctrl || modifiers.logo) || !modifiers.alt {
        return None;
    }
    let sym = keysym.modified_sym;
    if modifiers.shift {
        if is_delete(sym) {
            return Some(EmergencyAction::ForceQuit);
        }
        return None;
    }
    if is_delete(sym) {
        return Some(EmergencyAction::ToggleOverlay);
    }
    match vt_from_keysym(sym) {
        Some(vt) => Some(EmergencyAction::SwitchVt(vt)),
        None => None,
    }
}

/// What executing an emergency action leaves for the compositor to do.
#[derive(Clone, Copy, Debug, PartialEq, Eq, Structural)]
pub enum EmergencyEffect {
    /// The exit flag is set: signal the main loop and terminate the process.
    ForceQuit,
    /// The panel flag flipped; when it opened, client grabs and focus are to be released.
    /// `wake`: signal the main loop.
    OverlayToggled { opened: bool, wake: bool },
    /// Activate this VT.
    SwitchVt(u8),
}

/// Runs an action on the main loop (the exit flag and the panel flag are set here).
pub fn execute(action: EmergencyAction, ctx: &EmergencyContext, state: &mut State) -> (r: EmergencyEffect)
    ensures
        match action {
            EmergencyAction::ForceQuit => r == EmergencyEffect::ForceQuit && *final(state) == *old(state),
            EmergencyAction::ToggleOverlay => r == (EmergencyEffect::OverlayToggled {
                opened: !old(state).overlay_open,
                wake: ctx.overlay.wakes_loop(),
            }) && *final(state) == (State { overlay_open: !old(state).overlay_open, ..*old(state) }),
            EmergencyAction::SwitchVt(vt) => r == EmergencyEffect::SwitchVt(vt) && *final(state) == *old(state),
        },
{
    match action {
        EmergencyAction::ForceQuit => {
            request_exit(&ctx.exit_flag);
            EmergencyEffect::ForceQuit
        },
        EmergencyAction::ToggleOverlay => {
            state.overlay_open = !state.overlay_open;
            let wake = ctx.overlay.notify_changed();
            EmergencyEffect::OverlayToggled { opened: state.overlay_open, wake }
        },
        EmergencyAction::SwitchVt(vt) => EmergencyEffect::SwitchVt(vt),
    }
}

/// A key on the panel's simplified keyboard handling.
#[derive(Clone, Copy, Debug, PartialEq, Eq, Structural)]
pub enum OverlayKey {
    Nothing,
    /// Escape or Return: the panel closed.
    Closed,
    /// Lower the pointer speed by a quarter step.
    SpeedDown,
    /// Raise the pointer speed by a quarter step.
    SpeedUp,
    /// Launch the first configured tool.
    LaunchTool,
}

pub open spec fn spec_overlay_key(sym: u32) -> OverlayKey {
    if sym == KEY_ESCAPE || sym == KEY_RETURN {
        OverlayKey::Closed
    } else if sym == KEY_LEFT || sym == KEY_DOWN || sym == KEY_MINUS || sym == KEY_KP_SUBTRACT {
        OverlayKey::SpeedDown
    } else if sym == KEY_RIGHT || sym == KEY_UP || sym == KEY_PLUS || sym == KEY_EQUAL || sym == KEY_KP_ADD {
        OverlayKey::SpeedUp
    } else if sym == KEY_LOWER_O || sym == KEY_UPPER_O {
        OverlayKey::LaunchTool
    } else {
        OverlayKey::Nothing
    }
}

fn overlay_panel_filter(state: &mut State, keysym: &Keysym, key_state: KeyState) -> (r: OverlayKey)
    ensures
        key_state != KeyState::Pressed ==> r == OverlayKey::Nothing && *final(state) == *old(state),
        key_state == KeyState::Pressed ==> r == spec_overlay_key(keysym.modified_sym) && *final(state) == (
        if r == OverlayKey::Closed {
            State { overlay_open: false, ..*old(state) }
        } else {
            *old(state)
        }),
{
    if key_state != KeyState::Pressed {
        return OverlayKey::Nothing;
    }
    let sym = keysym.modified_sym;
    if sym == KEY_ESCAPE || sym == KEY_RETURN {
        state.overlay_open = false;
        OverlayKey::Closed
    } else if sym == KEY_LEFT || sym == KEY_DOWN || sym == KEY_MINUS || sym == KEY_KP_SUBTRACT {
        OverlayKey::SpeedDown
    } else if sym == KEY_RIGHT || sym == KEY_UP || sym == KEY_PLUS || sym == KEY_EQUAL || sym == KEY_KP_ADD {
        OverlayKey::SpeedUp
    } else if sym == KEY_LOWER_O || sym == KEY_UPPER_O {
        OverlayKey::LaunchTool
    } else {
        OverlayKey::Nothing
    }
}

/// What the compositor keyboard filter did with a key.
#[derive(Clone, Copy, Debug, PartialEq, Eq, Structural)]
pub enum CompositorKey {
    /// Not an emergency key and the panel is closed: the key goes on.
    Pass,
    Emergency(EmergencyEffect),
    Overlay(OverlayKey),
}

/// The compositor keyboard filter, run before any client sees the key: emergency combos
/// first, then the open panel swallows every key.
pub fn compositor_keyboard_filter(
    state: &mut State,
    ctx: &EmergencyContext,
    modifiers: &Modifiers,
    keysym: &Keysym,
    key_state: KeyState,
) -> (r: (FilterResult, CompositorKey))
    ensures
        ({
            let combo = spec_match_combo(*modifiers, keysym.modified_sym);
            if key_state == KeyState::Pressed && combo is Some {
                r.0 == FilterResult::Intercept && r.1 matches CompositorKey::Emergency(_)
            } else if old(state).overlay_open {
                &&& r.0 == FilterResult::Intercept
                &&& r.1 == CompositorKey::Overlay(
                    if key_state == KeyState::Pressed { spec_overlay_key(keysym.modified_sym) } else { OverlayKey::Nothing },
                )
                &&& *final(state) == (if r.1 == CompositorKey::Overlay(OverlayKey::Closed) {
                    State { overlay_open: false, ..*old(state) }
                } else {
                    *old(state)
                })
            } else {
                r == (FilterResult::Forward, CompositorKey::Pass) && *final(state) == *old(state)
            }
        }),
        key_state == KeyState::Pressed ==> match spec_match_combo(*modifiers, keysym.modified_sym) {
            Some(EmergencyAction::ForceQuit) => r.1 == CompositorKey::Emergency(EmergencyEffect::ForceQuit)
                && *final(state) == *old(state),
            Some(EmergencyAction::ToggleOverlay) => r.1 == CompositorKey::Emergency(
                EmergencyEffect::OverlayToggled { opened: !old(state).overlay_open, wake: ctx.overlay.wakes_loop() },
            ) && *final(state) == (State { overlay_open: !old(state).overlay_open, ..*old(state) }),
            Some(EmergencyAction::SwitchVt(vt)) => r.1 == CompositorKey::Emergency(EmergencyEffect::SwitchVt(vt))
                && *final(state) == *old(state),
            None => true,
        },
{
    if key_state == KeyState::Pressed {
        if let Some(action) = match_combo(modifiers, keysym) {
            let e = execute(action, ctx, state);
            return (FilterResult::Intercept, CompositorKey::Emergency(e));
        }
    }
    if state.overlay_open {
        let k = overlay_panel_filter(state, keysym, key_state);
        return (FilterResult::Intercept, CompositorKey::Overlay(k));
    }
    (FilterResult::Forward, CompositorKey::Pass)
}

// Linux input event codes.
pub const EV_KEY_DELETE: u16 = 111;
pub const EV_KEY_F1: u16 = 59;
pub const EV_KEY_F10: u16 = 68;
pub const EV_KEY_F11: u16 = 87;
pub const EV_KEY_F12: u16 = 88;

/// The VT a function key's evdev code selects: F1..F10 are codes 59..=68, F11 and F12 are
/// 87 and 88 (69 and 70 are Num Lock and Scroll Lock).
pub open spec fn spec_evdev_vt(code: u16) -> Option<u8> {
    if EV_KEY_F1 <= code <= EV_KEY_F10 {
        Some((code - EV_KEY_F1 + 1) as u8)
    } else if code == EV_KEY_F11 {
        Some(11u8)
    } else if code == EV_KEY_F12 {
        Some(12u8)
    } else {
        None
    }
}

pub open spec fn spec_match_evdev(ctrl: bool, alt: bool, shift: bool, pressed: bool, code: u16) -> Option<EmergencyAction> {
    if !pressed || !ctrl || !alt {
        None
    } else if shift && code == EV_KEY_DELETE {
        Some(EmergencyAction::ForceQuit)
    } else if !shift && code == EV_KEY_DELETE {
        Some(EmergencyAction::ToggleOverlay)
    } else if !shift && spec_evdev_vt(code) is Some {
        Some(EmergencyAction::SwitchVt(spec_evdev_vt(code)->0))
    } else {
        None
    }
}

/// The same P0/P1/VT logic on raw evdev key codes (for the hardware thread): Ctrl+Alt+F1..F12
/// switch to VT 1..12 (`spec_evdev_vt`).
pub fn match_evdev(ctrl: bool, alt: bool, shift: bool, pressed: bool, code: u16) -> (r: Option<EmergencyAction>)
    ensures
        r == spec_match_evdev(ctrl, alt, shift, pressed, code),
{
    if !pressed || !ctrl || !alt {
        return None;
    }
    if shift && code == EV_KEY_DELETE {
        return Some(EmergencyAction::ForceQuit);
    }
    if !shift && code == EV_KEY_DELETE {
        return Some(EmergencyAction::ToggleOverlay);
    }
    if !shift {
        if EV_KEY_F1 <= code && code <= EV_KEY_F10 {
            return Some(EmergencyAction::SwitchVt((code - EV_KEY_F1 + 1) as u8));
        }
        if code == EV_KEY_F11 {
            return Some(EmergencyAction::SwitchVt(11));
        }
        if code == EV_KEY_F12 {
            return Some(EmergencyAction::SwitchVt(12));
        }
    }
    None
}

} // verus!
