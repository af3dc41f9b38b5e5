//! WM context menu input: opening at the pointer, hover, clicks and Escape.

use vstd::prelude::*;

use super::layout::{self, count_fits, spec_hit_test, spec_menu_origin, Hit, MENU_W};
use super::ContextMenuState;
use crate::apps::{focus_unified_rel, lemma_focus_keeps_apps, spec_resync, FocusPlan, UnifiedApp};
use crate::keys::{FilterResult, KeyState, Keysym, KEY_ESCAPE};
use crate::modifiers::{self, spec_right_alt_held, spec_super_held};
use crate::settings::input::{reset_on_open, reset_settings};
use crate::state::State;

verus! {

/// Super is held (the compositor keyboard's logo modifier is `keyboard_logo`).
pub fn super_held(state: &State, keyboard_logo: bool) -> (r: bool)
    ensures
        spec_super_held(keyboard_logo, state.local_super_keys, false) ==> r,
{
    modifiers::super_held(keyboard_logo, state.local_super_keys, &state.mod_tracker)
}

pub fn right_alt_held(state: &State) -> (r: bool)
    ensures
        spec_right_alt_held(state.local_right_alt_keys, false) ==> r,
{
    modifiers::right_alt_held(state.local_right_alt_keys, &state.mod_tracker)
}

/// Super or Right Alt is held.
pub fn context_menu_modifier_held(state: &State, keyboard_logo: bool) -> (r: bool)
    ensures
        spec_super_held(keyboard_logo, state.local_super_keys, false) || spec_right_alt_held(
            state.local_right_alt_keys,
            false,
        ) ==> r,
{
    modifiers::context_menu_modifier_held(
        keyboard_logo,
        state.local_super_keys,
        state.local_right_alt_keys,
        &state.mod_tracker,
    )
}

/// Modifier for the menu on a mouse click: the compositor's own Super/Right-Alt, or Super
/// seen by evdev (a nested session may swallow it); Right Alt from evdev does not count.
pub fn pointer_context_menu_modifier_held(state: &State, keyboard_logo: bool) -> (r: bool)
    ensures
        spec_super_held(keyboard_logo, state.local_super_keys, false) || spec_right_alt_held(
            state.local_right_alt_keys,
            false,
        ) ==> r,
{
    if modifiers::context_menu_modifier_held_from(
        keyboard_logo,
        state.local_super_keys,
        state.local_right_alt_keys,
        false,
        false,
    ) {
        return true;
    }
    state.mod_tracker.evdev_super()
}

/// The hovered entry for a hit: none over nothing.
pub open spec fn hover_of(h: Hit) -> Option<Hit> {
    if h == Hit::Nothing {
        None
    } else {
        Some(h)
    }
}

/// The menu can be placed on this output and every row fits an `i32`.
pub open spec fn menu_fits(s: State) -> bool {
    &&& count_fits(s.spec_app_count())
    &&& s.output_w >= i32::MIN + MENU_W
    &&& s.output_h >= i32::MIN + 0x4000_0000
}

/// State after opening the menu at `(x, y)`.
pub open spec fn opened_at(s: State, x: int, y: int) -> State {
    let n = s.spec_app_count();
    let (ox, oy) = spec_menu_origin(x, y, s.output_w as int, s.output_h as int, n);
    State {
        context_menu: ContextMenuState {
            open: true,
            origin_x: ox as i32,
            origin_y: oy as i32,
            hover: hover_of(spec_hit_test(n, ox, oy, x, y)),
        },
        force_full_damage: true,
        render_pending: true,
        render_deadline: None,
        ..s
    }
}

/// Opens the menu at the (floored) pointer `(x, y)`, pushed inside the output, with the
/// entry under the pointer hovered; a full redraw is scheduled.
pub fn open_at_logical(state: &mut State, x: i32, y: i32)
    requires
        menu_fits(*old(state)),
    ensures
        ({
            let s = *old(state);
            let n = s.spec_app_count();
            let (ox, oy) = spec_menu_origin(x as int, y as int, s.output_w as int, s.output_h as int, n);
            *final(state) == (State {
                context_menu: ContextMenuState {
                    open: true,
                    origin_x: ox as i32,
                    origin_y: oy as i32,
                    hover: hover_of(spec_hit_test(n, ox, oy, x as int, y as int)),
                },
                force_full_damage: true,
                render_pending: true,
                render_deadline: None,
                ..s
            })
        }),
{
    let (ox, oy) = layout::menu_origin(x, y, state.output_w, state.output_h, state.app_count());
    let hit = layout::hit_test(state, ox, oy, x, y);
    let hover = if hit == Hit::Nothing { None } else { Some(hit) };
    let ghost s0 = *state;
    state.context_menu = ContextMenuState { open: true, origin_x: ox, origin_y: oy, hover };
    state.note_full_damage();
    state.request_render();
    assert(*state == (State {
        context_menu: ContextMenuState { open: true, origin_x: ox, origin_y: oy, hover },
        force_full_damage: true,
        render_pending: true,
        render_deadline: None,
        ..s0
    }));
}

/// A client asked for its window menu at `(x, y)`: its toplevel (`toplevel`, an index into
/// the Wayland apps, when known) is focused, then the WM menu opens there.
pub fn show_window_menu(state: &mut State, toplevel: Option<usize>, x: i32, y: i32) -> (r: Option<FocusPlan>)
    requires
        menu_fits(*old(state)),
        toplevel matches Some(i) ==> (i as int) < old(state).running_apps@.len(),
    ensures
        exists|m: State|
            #![trigger opened_at(m, x as int, y as int)]
            *final(state) == opened_at(m, x as int, y as int) && match toplevel {
                None => m == *old(state) && r is None,
                Some(i) => r matches Some(plan) && focus_unified_rel(*old(state), i, m, plan),
            },
{
    let ghost s0 = *state;
    let plan = match toplevel {
        Some(i) => {
            let p = state.focus_unified(i);
            proof {
                lemma_focus_keeps_apps(s0, i, *state, p);
            }
            Some(p)
        },
        None => None,
    };
    let ghost m = *state;
    open_at_logical(state, x, y);
    assert(*state == opened_at(m, x as int, y as int));
    plan
}

/// Outcome of closing the menu.
#[derive(Clone, Copy, Debug, PartialEq, Eq, Structural)]
pub enum MenuClose {
    /// The menu was not open: nothing changed.
    NotOpen,
    /// The menu closed and input is to be restored; an app that mapped meanwhile was
    /// focused with this plan.
    Closed(Option<FocusPlan>),
}

/// `t` and `r` are what closing the menu makes of `s` (see `close`).
pub open spec fn close_rel(s: State, t: State, r: MenuClose) -> bool {
    if !s.context_menu.open {
        t == s && r == MenuClose::NotOpen
    } else {
        let s1 = State { context_menu: ContextMenuState { open: false, hover: None, ..s.context_menu }, ..s };
        let (s2, pending) = spec_resync(s1);
        match pending {
            None => r == MenuClose::Closed(None) && t == (State {
                render_pending: true,
                render_deadline: None,
                ..s2
            }),
            Some(i) => exists|m: State, plan: FocusPlan|
                #![trigger focus_unified_rel(s2, i, m, plan)]
                focus_unified_rel(s2, i, m, plan) && r == MenuClose::Closed(Some(plan)) && t == (State {
                    render_pending: true,
                    render_deadline: None,
                    ..m
                }),
        }
    }
}

/// Closes the menu: no hover, input restored (focusing an app that mapped while it was
/// open), a frame scheduled.
pub fn close(state: &mut State) -> (r: MenuClose)
    requires
        old(state).spec_app_count() <= usize::MAX,
    ensures
        close_rel(*old(state), *final(state), r),
{
    if !state.context_menu.open {
        return MenuClose::NotOpen;
    }
    let ghost s0 = *state;
    state.context_menu.open = false;
    state.context_menu.hover = None;
    let ghost s1 = *state;
    assert(s1 == (State { context_menu: ContextMenuState { open: false, hover: None, ..s0.context_menu }, ..s0 }));
    let pending = state.resync_input_after_overlay();
    let ghost s2 = *state;
    let plan = match pending {
        Some(idx) => Some(state.focus_unified(idx)),
        None => None,
    };
    let ghost m = *state;
    state.request_render();
    assert(*state == (State { render_pending: true, render_deadline: None, ..m }));
    if let Some(p) = plan {
        assert(focus_unified_rel(s2, pending->0, m, p));
    }
    MenuClose::Closed(plan)
}

/// Closing the menu right after opening it leaves it closed with nothing hovered, and
/// reports that it was open.
pub proof fn lemma_open_then_close(s: State, x: int, y: int, t: State, r: MenuClose)
    requires
        close_rel(opened_at(s, x, y), t, r),
    ensures
        !t.context_menu.open,
        t.context_menu.hover is None,
        r is Closed,
{
    let o = opened_at(s, x, y);
    let s1 = State { context_menu: ContextMenuState { open: false, hover: None, ..o.context_menu }, ..o };
    let (s2, pending) = spec_resync(s1);
    if let Some(i) = pending {
        let (m, plan) = choose|m: State, plan: FocusPlan|
            focus_unified_rel(s2, i, m, plan) && r == MenuClose::Closed(Some(plan)) && t == (State {
                render_pending: true,
                render_deadline: None,
                ..m
            });
        lemma_focus_keeps_apps(s2, i, m, plan);
    }
}

/// Result of a click while the menu is open.
#[derive(Clone, Copy, Debug, PartialEq, Eq, Structural)]
pub enum MenuClick {
    /// The menu is closed, or the button was released.
    Ignored,
    /// An app row: the app was focused with this plan, then the menu closed.
    Focus(FocusPlan, MenuClose),
    /// "Close window": the menu closed; close this app (if any).
    CloseApp(MenuClose, Option<UnifiedApp>),
    /// "Settings": the menu closed and the settings panel opened (reset).
    OpenSettings(MenuClose),
    /// Outside every entry: the menu closed.
    Dismissed(MenuClose),
}

/// State after opening the settings panel from the menu.
pub open spec fn settings_opened(s: State) -> State {
    State { overlay_open: true, settings: reset_settings(), render_pending: true, render_deadline: None, ..s }
}

/// `t` and `r` are what a button event at `(px, py)` makes of `s` (see
/// `handle_pointer_button`).
pub open spec fn menu_click_rel(s: State, t: State, px: int, py: int, pressed: bool, r: MenuClick) -> bool {
    if !s.context_menu.open || !pressed {
        t == s && r == MenuClick::Ignored
    } else {
        match spec_hit_test(s.spec_app_count(), s.context_menu.origin_x as int, s.context_menu.origin_y as int, px, py) {
            Hit::App(i) => exists|m: State, plan: FocusPlan, c: MenuClose|
                #![trigger focus_unified_rel(s, i, m, plan), close_rel(m, t, c)]
                focus_unified_rel(s, i, m, plan) && close_rel(m, t, c) && r == MenuClick::Focus(plan, c),
            Hit::CloseApp => exists|c: MenuClose|
                #![trigger close_rel(s, t, c)]
                close_rel(s, t, c) && r == MenuClick::CloseApp(c, t.close_focused_spec()),
            Hit::OpenSettings => exists|m: State, c: MenuClose|
                #![trigger close_rel(s, m, c)]
                close_rel(s, m, c) && r == MenuClick::OpenSettings(c) && t == settings_opened(m),
            Hit::Nothing => exists|c: MenuClose|
                #![trigger close_rel(s, t, c)]
                close_rel(s, t, c) && r == MenuClick::Dismissed(c),
        }
    }
}

/// A button event at the (floored) pointer `(px, py)`.
#[verifier::rlimit(30)]
pub fn handle_pointer_button(state: &mut State, px: i32, py: i32, pressed: bool) -> (r: MenuClick)
    requires
        count_fits(old(state).spec_app_count()),
    ensures
        menu_click_rel(*old(state), *final(state), px as int, py as int, pressed, r),
{
    if !state.context_menu.open || !pressed {
        return MenuClick::Ignored;
    }
    let ghost s = *state;
    let hit = layout::hit_test(state, state.context_menu.origin_x, state.context_menu.origin_y, px, py);
    match hit {
        Hit::App(i) => {
            let plan = state.focus_unified(i);
            let ghost m = *state;
            proof {
                lemma_focus_keeps_apps(s, i, m, plan);
            }
            let c = close(state);
            assert(focus_unified_rel(s, i, m, plan) && close_rel(m, *state, c));
            MenuClick::Focus(plan, c)
        },
        Hit::CloseApp => {
            let c = close(state);
            assert(close_rel(s, *state, c));
            let target = state.close_focused();
            MenuClick::CloseApp(c, target)
        },
        Hit::OpenSettings => {
            let c = close(state);
            let ghost m = *state;
            assert(close_rel(s, m, c));
            state.overlay_open = true;
            reset_on_open(state);
            state.request_render();
            assert(*state == settings_opened(m));
            MenuClick::OpenSettings(c)
        },
        Hit::Nothing => {
            let c = close(state);
            assert(close_rel(s, *state, c));
            MenuClick::Dismissed(c)
        },
    }
}

/// Pointer motion while the menu is open: updates the hovered entry; `true` when it changed
/// (the menu must be redrawn).
pub fn handle_pointer_motion(state: &mut State, px: i32, py: i32) -> (r: bool)
    requires
        count_fits(old(state).spec_app_count()),
    ensures
        !old(state).context_menu.open ==> !r && *final(state) == *old(state),
        old(state).context_menu.open ==> ({
            let s = *old(state);
            let hover = hover_of(
                spec_hit_test(
                    s.spec_app_count(),
                    s.context_menu.origin_x as int,
                    s.context_menu.origin_y as int,
                    px as int,
                    py as int,
                ),
            );
            &&& r == (s.context_menu.hover != hover)
            &&& *final(state) == (State { context_menu: ContextMenuState { hover, ..s.context_menu }, ..s })
        }),
{
    if !state.context_menu.open {
        return false;
    }
    let hit = layout::hit_test(state, state.context_menu.origin_x, state.context_menu.origin_y, px, py);
    let hover = if hit == Hit::Nothing { None } else { Some(hit) };
    if state.context_menu.hover != hover {
        state.context_menu.hover = hover;
        return true;
    }
    false
}

/// Keyboard filter while the menu is open: every key is swallowed; Escape closes it.
pub fn keyboard_filter(state: &mut State, keysym: &Keysym, key_state: KeyState) -> (r: (FilterResult, MenuClose))
    requires
        old(state).spec_app_count() <= usize::MAX,
    ensures
        r.0 == FilterResult::Intercept,
        key_state == KeyState::Pressed && keysym.modified_sym == KEY_ESCAPE ==> close_rel(
            *old(state),
            *final(state),
            r.1,
        ),
        !(key_state == KeyState::Pressed && keysym.modified_sym == KEY_ESCAPE) ==> r.1 == MenuClose::NotOpen
            && *final(state) == *old(state),
{
    if key_state != KeyState::Pressed {
        return (FilterResult::Intercept, MenuClose::NotOpen);
    }
    if keysym.modified_sym == KEY_ESCAPE {
        let c = close(state);
        return (FilterResult::Intercept, c);
    }
    (FilterResult::Intercept, MenuClose::NotOpen)
}

} // verus!
