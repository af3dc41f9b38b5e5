//! Settings panel input: what a click, a motion or a key does to the panel state, and what
//! is left for the compositor (redraw, pointer speed, the confirmed action).

use vstd::prelude::*;

use super::layout::{self, spec_hit_test, spec_panel_origin, ConfirmAction, Hit, Screen};
use super::theme::{PANEL_H, PANEL_W};
use super::SettingsState;
use crate::keys::{
    FilterResult, KeyState, Keysym, KEY_BACKSPACE, KEY_DOWN, KEY_EQUAL, KEY_ESCAPE, KEY_KP_ADD,
    KEY_KP_ENTER, KEY_KP_SUBTRACT, KEY_LEFT, KEY_MINUS, KEY_PLUS, KEY_RETURN, KEY_RIGHT, KEY_UP,
};
use crate::state::State;

verus! {

/// The panel can be centred on this output without overflowing `i32`.
pub open spec fn panel_fits(s: State) -> bool {
    s.output_w >= i32::MIN + PANEL_W && s.output_h >= i32::MIN + PANEL_H
}

/// What lies under the (floored) pointer: a panel entry, or nothing outside the panel.
pub open spec fn spec_panel_hit(s: State, px: int, py: int) -> Hit {
    let (ox, oy) = spec_panel_origin(s.output_w as int, s.output_h as int);
    let lx = px - ox;
    let ly = py - oy;
    if 0 <= lx < PANEL_W && 0 <= ly < PANEL_H {
        spec_hit_test(s.settings.screen, s.settings.confirm, lx, ly)
    } else {
        Hit::Nothing
    }
}

/// The panel state every opening starts from.
pub open spec fn reset_settings() -> SettingsState {
    SettingsState { screen: Screen::Main, confirm: None, slider_drag: false, hover: None }
}

/// Back to the main screen, no dialog, no drag, no hover (the pointer speed is clamped by the
/// caller).
pub fn reset_on_open(state: &mut State)
    ensures
        *final(state) == (State { settings: reset_settings(), ..*old(state) }),
{
    state.settings.screen = Screen::Main;
    state.settings.confirm = None;
    state.settings.slider_drag = false;
    state.settings.hover = None;
}

/// Result of a click on the panel.
#[derive(Clone, Copy, Debug, PartialEq, Eq, Structural)]
pub enum PanelClick {
    /// Not open, not a press, or nothing under the pointer.
    Ignored,
    /// The close button: the panel closed and was reset.
    Closed,
    /// The panel content changed: redraw it.
    Redraw,
    /// The slider was grabbed at this panel-local x: set the pointer speed from it.
    Slider(i32),
    /// The dialog's OK: run this action (its dialog closed), then redraw.
    Confirmed(ConfirmAction),
}

/// Settings after a click on `hit` (at panel-local x `lx`), whether it closes the panel,
/// and what is left for the compositor.
pub open spec fn spec_click(set: SettingsState, hit: Hit, lx: i32) -> (SettingsState, bool, PanelClick) {
    match hit {
        Hit::Nothing => (set, false, PanelClick::Ignored),
        Hit::Close => (reset_settings(), true, PanelClick::Closed),
        Hit::AppletMouse => (SettingsState { screen: Screen::Mouse, ..set }, false, PanelClick::Redraw),
        Hit::FooterQuit => (SettingsState { confirm: Some(ConfirmAction::QuitWm), ..set }, false, PanelClick::Redraw),
        Hit::FooterShutdown => (
            SettingsState { confirm: Some(ConfirmAction::Shutdown), ..set },
            false,
            PanelClick::Redraw,
        ),
        Hit::FooterReboot => (SettingsState { confirm: Some(ConfirmAction::Reboot), ..set }, false, PanelClick::Redraw),
        Hit::MouseBack => (
            SettingsState { screen: Screen::Main, slider_drag: false, ..set },
            false,
            PanelClick::Redraw,
        ),
        Hit::Slider => (SettingsState { slider_drag: true, ..set }, false, PanelClick::Slider(lx)),
        Hit::ConfirmCancel => (SettingsState { confirm: None, ..set }, false, PanelClick::Redraw),
        Hit::ConfirmOk => (
            SettingsState { confirm: None, ..set },
            false,
            match set.confirm {
                Some(a) => PanelClick::Confirmed(a),
                None => PanelClick::Redraw,
            },
        ),
    }
}

fn click(set: SettingsState, hit: Hit, lx: i32) -> (r: (SettingsState, bool, PanelClick))
    ensures
        r == spec_click(set, hit, lx),
{
    let mut set = set;
    match hit {
        Hit::Nothing => (set, false, PanelClick::Ignored),
        Hit::Close => (SettingsState { screen: Screen::Main, confirm: None, slider_drag: false, hover: None }, true, PanelClick::Closed),
        Hit::AppletMouse => {
            set.screen = Screen::Mouse;
            (set, false, PanelClick::Redraw)
        },
        Hit::FooterQuit => {
            set.confirm = Some(ConfirmAction::QuitWm);
            (set, false, PanelClick::Redraw)
        },
        Hit::FooterShutdown => {
            set.confirm = Some(ConfirmAction::Shutdown);
            (set, false, PanelClick::Redraw)
        },
        Hit::FooterReboot => {
            set.confirm = Some(ConfirmAction::Reboot);
            (set, false, PanelClick::Redraw)
        },
        Hit::MouseBack => {
            set.screen = Screen::Main;
            set.slider_drag = false;
            (set, false, PanelClick::Redraw)
        },
        Hit::Slider => {
            set.slider_drag = true;
            (set, false, PanelClick::Slider(lx))
        },
        Hit::ConfirmCancel => {
            set.confirm = None;
            (set, false, PanelClick::Redraw)
        },
        Hit::ConfirmOk => {
            let action = set.confirm;
            set.confirm = None;
            match action {
                Some(a) => (set, false, PanelClick::Confirmed(a)),
                None => (set, false, PanelClick::Redraw),
            }
        },
    }
}

/// `t` and `r` are what a button event at `(px, py)` makes of `s` (see
/// `handle_pointer_button`).
pub open spec fn panel_click_rel(s: State, t: State, px: int, py: int, pressed: bool, r: PanelClick) -> bool {
    if !s.overlay_open || !pressed {
        t == s && r == PanelClick::Ignored
    } else {
        let (ox, oy) = spec_panel_origin(s.output_w as int, s.output_h as int);
        let (set, closes, click) = spec_click(s.settings, spec_panel_hit(s, px, py), (px - ox) as i32);
        &&& r == click
        &&& t == (State { settings: set, overlay_open: !closes, ..s })
    }
}

/// The action a footer button asks to confirm.
pub open spec fn footer_action(h: Hit) -> Option<ConfirmAction> {
    match h {
        Hit::FooterQuit => Some(ConfirmAction::QuitWm),
        Hit::FooterShutdown => Some(ConfirmAction::Shutdown),
        Hit::FooterReboot => Some(ConfirmAction::Reboot),
        _ => None,
    }
}

/// A press on a footer button (Quit, Shut down, Restart) keeps the panel open with the
/// dialog for exactly that button's action, and confirming it (Enter, keypad Enter, or OK)
/// yields that same action and closes the dialog; Escape or Cancel closes it with nothing
/// run.
pub proof fn lemma_footer_confirms_its_action(s: State, t: State, px: int, py: int, r: PanelClick, sym: u32)
    requires
        s.overlay_open,
        panel_click_rel(s, t, px, py, true, r),
        footer_action(spec_panel_hit(s, px, py)) is Some,
    ensures
        ({
            let a = footer_action(spec_panel_hit(s, px, py))->0;
            &&& spec_panel_hit(s, px, py) == Hit::FooterReboot ==> a == ConfirmAction::Reboot
            &&& spec_panel_hit(s, px, py) == Hit::FooterShutdown ==> a == ConfirmAction::Shutdown
            &&& spec_panel_hit(s, px, py) == Hit::FooterQuit ==> a == ConfirmAction::QuitWm
            &&& t.overlay_open
            &&& t.settings.confirm == Some(a)
            &&& r == PanelClick::Redraw
            &&& (sym == KEY_RETURN || sym == KEY_KP_ENTER) ==> spec_key(t.settings, sym).2 == PanelKey::Confirmed(a)
                && spec_key(t.settings, sym).0.confirm is None
            &&& sym == KEY_ESCAPE ==> spec_key(t.settings, sym).2 == PanelKey::Redraw && spec_key(
                t.settings,
                sym,
            ).0.confirm is None
            &&& spec_click(t.settings, Hit::ConfirmOk, 0).2 == PanelClick::Confirmed(a)
            &&& spec_click(t.settings, Hit::ConfirmCancel, 0).2 == PanelClick::Redraw
        }),
{
}

/// A button press (or release) at the floored pointer position `(px, py)`.
pub fn handle_pointer_button(state: &mut State, px: i32, py: i32, pressed: bool) -> (r: PanelClick)
    requires
        panel_fits(*old(state)),
    ensures
        panel_click_rel(*old(state), *final(state), px as int, py as int, pressed, r),
{
    if !state.overlay_open || !pressed {
        return PanelClick::Ignored;
    }
    let (lx, ly) = match layout::pointer_to_panel_local(px, py, state.output_w, state.output_h) {
        Some(p) => p,
        None => return PanelClick::Ignored,
    };
    let hit = layout::hit_test(state.settings.screen, state.settings.confirm, lx, ly);
    let (set, closes, r) = click(state.settings, hit, lx);
    let ghost s0 = *state;
    state.settings = set;
    state.overlay_open = !closes;
    assert(*state == (State { settings: set, overlay_open: !closes, ..s0 }));
    r
}

/// Result of a pointer motion over the panel.
#[derive(Clone, Copy, Debug, PartialEq, Eq, Structural)]
pub struct PanelMotion {
    /// The hovered entry changed: redraw.
    pub redraw: bool,
    /// The slider is being dragged: set the pointer speed from this panel-local x.
    pub slider_x: Option<i32>,
}

pub open spec fn hover_of(h: Hit) -> Option<Hit> {
    if h == Hit::Nothing {
        None
    } else {
        Some(h)
    }
}

/// Updates the hovered entry; while the slider is dragged on the mouse screen (no dialog),
/// reports the pointer's panel-local x when it is over the panel.
pub fn handle_pointer_motion(state: &mut State, px: i32, py: i32) -> (r: PanelMotion)
    requires
        panel_fits(*old(state)),
    ensures
        !old(state).overlay_open ==> *final(state) == *old(state) && r == (PanelMotion { redraw: false, slider_x: None }),
        old(state).overlay_open ==> ({
            let s = *old(state);
            let hover = hover_of(spec_panel_hit(s, px as int, py as int));
            let (ox, oy) = spec_panel_origin(s.output_w as int, s.output_h as int);
            let lx = px - ox;
            let ly = py - oy;
            let dragging = s.settings.slider_drag && s.settings.confirm is None && s.settings.screen == Screen::Mouse;
            &&& *final(state) == (State { settings: SettingsState { hover, ..s.settings }, ..s })
            &&& r.redraw == (s.settings.hover != hover)
            &&& r.slider_x == if dragging && 0 <= lx < PANEL_W && 0 <= ly < PANEL_H {
                Some(lx as i32)
            } else {
                None::<i32>
            }
        }),
{
    if !state.overlay_open {
        return PanelMotion { redraw: false, slider_x: None };
    }
    let local = layout::pointer_to_panel_local(px, py, state.output_w, state.output_h);
    let hit = match local {
        Some((lx, ly)) => layout::hit_test(state.settings.screen, state.settings.confirm, lx, ly),
        None => Hit::Nothing,
    };
    let hover = if hit != Hit::Nothing { Some(hit) } else { None };
    let redraw = state.settings.hover != hover;
    if redraw {
        state.settings.hover = hover;
    }
    let mut slider_x: Option<i32> = None;
    if state.settings.slider_drag && state.settings.confirm.is_none() && state.settings.screen == Screen::Mouse {
        if let Some((lx, _)) = local {
            slider_x = Some(lx);
        }
    }
    PanelMotion { redraw, slider_x }
}

/// Button released: the slider drag ends.
pub fn handle_pointer_release(state: &mut State)
    ensures
        *final(state) == (State {
            settings: SettingsState { slider_drag: false, ..old(state).settings },
            ..*old(state)
        }),
{
    state.settings.slider_drag = false;
}

/// Direction of a keyboard pointer-speed step (the caller scales by 0.9 or 1.1).
#[derive(Clone, Copy, Debug, PartialEq, Eq, Structural)]
pub enum SpeedStep {
    Slower,
    Faster,
}

pub open spec fn spec_speed_step(sym: u32) -> Option<SpeedStep> {
    if sym == KEY_LEFT || sym == KEY_DOWN || sym == KEY_MINUS || sym == KEY_KP_SUBTRACT {
        Some(SpeedStep::Slower)
    } else if sym == KEY_RIGHT || sym == KEY_UP || sym == KEY_PLUS || sym == KEY_EQUAL || sym == KEY_KP_ADD {
        Some(SpeedStep::Faster)
    } else {
        None
    }
}

/// Arrow, +/- and keypad keys on the mouse screen step the pointer speed.
pub fn speed_step(sym: u32) -> (r: Option<SpeedStep>)
    ensures
        r == spec_speed_step(sym),
{
    if sym == KEY_LEFT || sym == KEY_DOWN || sym == KEY_MINUS || sym == KEY_KP_SUBTRACT {
        Some(SpeedStep::Slower)
    } else if sym == KEY_RIGHT || sym == KEY_UP || sym == KEY_PLUS || sym == KEY_EQUAL || sym == KEY_KP_ADD {
        Some(SpeedStep::Faster)
    } else {
        None
    }
}

/// What a key did to the panel.
#[derive(Clone, Copy, Debug, PartialEq, Eq, Structural)]
pub enum PanelKey {
    Nothing,
    /// The panel content changed: redraw it.
    Redraw,
    /// Escape on the main screen: the panel closed.
    Closed,
    /// Enter in the dialog: run this action (its dialog closed), then redraw.
    Confirmed(ConfirmAction),
    /// Step the pointer speed.
    Speed(SpeedStep),
}

/// Settings after key `sym` (pressed), whether it closes the panel, and what is left to do.
pub open spec fn spec_key(set: SettingsState, sym: u32) -> (SettingsState, bool, PanelKey) {
    if set.confirm is Some {
        if sym == KEY_ESCAPE {
            (SettingsState { confirm: None, ..set }, false, PanelKey::Redraw)
        } else if sym == KEY_RETURN || sym == KEY_KP_ENTER {
            (SettingsState { confirm: None, ..set }, false, PanelKey::Confirmed(set.confirm->0))
        } else {
            (set, false, PanelKey::Nothing)
        }
    } else if sym == KEY_ESCAPE {
        match set.screen {
            Screen::Main => (set, true, PanelKey::Closed),
            Screen::Mouse => (SettingsState { screen: Screen::Main, ..set }, false, PanelKey::Redraw),
        }
    } else if set.screen == Screen::Mouse {
        if sym == KEY_BACKSPACE {
            (SettingsState { screen: Screen::Main, ..set }, false, PanelKey::Redraw)
        } else {
            match spec_speed_step(sym) {
                Some(step) => (set, false, PanelKey::Speed(step)),
                None => (set, false, PanelKey::Nothing),
            }
        }
    } else {
        (set, false, PanelKey::Nothing)
    }
}

fn key(set: SettingsState, sym: u32) -> (r: (SettingsState, bool, PanelKey))
    ensures
        r == spec_key(set, sym),
{
    let mut set = set;
    if let Some(action) = set.confirm {
        if sym == KEY_ESCAPE {
            set.confirm = None;
            return (set, false, PanelKey::Redraw);
        } else if sym == KEY_RETURN || sym == KEY_KP_ENTER {
            set.confirm = None;
            return (set, false, PanelKey::Confirmed(action));
        }
        return (set, false, PanelKey::Nothing);
    }
    if sym == KEY_ESCAPE {
        return match set.screen {
            Screen::Main => (set, true, PanelKey::Closed),
            Screen::Mouse => {
                set.screen = Screen::Main;
                (set, false, PanelKey::Redraw)
            },
        };
    }
    if set.screen == Screen::Mouse {
        if sym == KEY_BACKSPACE {
            set.screen = Screen::Main;
            return (set, false, PanelKey::Redraw);
        }
        return match speed_step(sym) {
            Some(step) => (set, false, PanelKey::Speed(step)),
            None => (set, false, PanelKey::Nothing),
        };
    }
    (set, false, PanelKey::Nothing)
}

/// Keyboard filter while the panel is open: every key is swallowed; presses act on it.
pub fn keyboard_filter(state: &mut State, keysym: &Keysym, key_state: KeyState) -> (r: (FilterResult, PanelKey))
    ensures
        r.0 == FilterResult::Intercept,
        key_state != KeyState::Pressed ==> r.1 == PanelKey::Nothing && *final(state) == *old(state),
        key_state == KeyState::Pressed ==> ({
            let (set, closes, k) = spec_key(old(state).settings, keysym.modified_sym);
            &&& r.1 == k
            &&& *final(state) == (State {
                settings: set,
                overlay_open: old(state).overlay_open && !closes,
                ..*old(state)
            })
        }),
{
    if key_state != KeyState::Pressed {
        return (FilterResult::Intercept, PanelKey::Nothing);
    }
    let (set, closes, r) = key(state.settings, keysym.modified_sym);
    let ghost s0 = *state;
    let open = state.overlay_open && !closes;
    state.settings = set;
    state.overlay_open = open;
    assert(*state == (State { settings: set, overlay_open: open, ..s0 }));
    (FilterResult::Intercept, r)
}

} // verus!
