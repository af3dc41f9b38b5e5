//! Routing of pointer and keyboard events between the WM overlays and the clients.

use vstd::prelude::*;

use crate::apps::spec_apply_focus;
use crate::context_menu::input::{self as menu, menu_click_rel, menu_fits, MenuClick};
use crate::context_menu::layout::{count_fits, spec_hit_test, spec_menu_origin};
use crate::context_menu::ContextMenuState;
use crate::settings::input::{self as panel, panel_click_rel, panel_fits, PanelClick, PanelMotion};
use crate::settings::SettingsState;
use crate::state::{spec_debounced, State};

verus! {

/// Linux button codes.
pub const BTN_LEFT: u32 = 0x110;
pub const BTN_RIGHT: u32 = 0x111;

/// A WM overlay (panel, menu or switcher) is open.
pub open spec fn wm_ui_open(s: State) -> bool {
    s.overlay_open || s.context_menu.open || s.alt_tab.open
}

/// Relative pointer motion is scaled by the pointer speed, except over a WM overlay.
pub fn motion_uses_speed(state: &State) -> (r: bool)
    ensures
        r == !wm_ui_open(*state),
{
    !(state.overlay_open || state.context_menu.open || state.alt_tab.open)
}

/// After a key went through the filters: a frame is scheduled unless a WM overlay is open.
pub fn after_key(state: &mut State)
    ensures
        wm_ui_open(*old(state)) ==> *final(state) == *old(state),
        !wm_ui_open(*old(state)) ==> *final(state) == (State {
            render_pending: true,
            render_deadline: None,
            ..*old(state)
        }),
{
    if !state.overlay_open && !state.context_menu.open && !state.alt_tab.open {
        state.request_render();
    }
}

/// Scroll events reach clients only while no WM overlay is open (and then schedule a frame).
pub fn axis_event(state: &mut State) -> (deliver: bool)
    ensures
        deliver == !wm_ui_open(*old(state)),
        !deliver ==> *final(state) == *old(state),
        deliver ==> *final(state) == (State { render_pending: true, render_deadline: None, ..*old(state) }),
{
    if state.overlay_open || state.context_menu.open || state.alt_tab.open {
        return false;
    }
    state.request_render();
    true
}

/// Where a button event went.
#[derive(Clone, Copy, Debug, PartialEq, Eq, Structural)]
pub enum ButtonOutcome {
    /// The panel is open: left-button events go to it (others are dropped).
    Panel(Option<PanelClick>),
    /// The menu is open: left presses go to it (other events are dropped).
    Menu(Option<MenuClick>),
    /// Menu modifier + right press: the WM menu opened at the pointer.
    MenuOpened,
    /// Deliver the event to the client under the pointer. `refocus`: a left press
    /// re-applied a pending X11 focus first (`Some(dispatch)`).
    Client { refocus: Option<bool> },
}

/// Delay (ms) before an overlay redraw after pointer motion.
pub const OVERLAY_REDRAW_MS: u64 = 16;
/// Delay (ms) before a redraw after pointer motion over clients.
pub const CLIENT_REDRAW_MS: u64 = 8;

/// The output and app count are in the range the panel and menu geometry is computed in,
/// and `now_ms` leaves room for the redraw delay: `handle_button` and `handle_motion` may
/// be called.
pub fn input_fits(state: &State, now_ms: u64) -> (r: bool)
    requires
        state.spec_app_count() <= usize::MAX,
    ensures
        r == (panel_fits(*state) && menu_fits(*state) && now_ms + OVERLAY_REDRAW_MS <= u64::MAX),
{
    let n = state.app_count();
    n <= 0x1fff800 && state.output_w >= i32::MIN + crate::settings::theme::PANEL_W && state.output_h
        >= i32::MIN + crate::settings::theme::PANEL_H && state.output_w >= i32::MIN
        + crate::context_menu::layout::MENU_W && state.output_h >= i32::MIN + 0x4000_0000 && now_ms
        <= u64::MAX - OVERLAY_REDRAW_MS
}

/// A button event at the floored pointer `(px, py)`. `menu_modifier_held` is what
/// `context_menu::input::pointer_context_menu_modifier_held` said.
#[verifier::rlimit(40)]
pub fn handle_button(state: &mut State, px: i32, py: i32, button: u32, pressed: bool, menu_modifier_held: bool) -> (r: ButtonOutcome)
    requires
        panel_fits(*old(state)),
        menu_fits(*old(state)),
    ensures
        old(state).overlay_open ==> if button == BTN_LEFT {
            r matches ButtonOutcome::Panel(Some(click)) && exists|m: State|
                #![trigger panel_click_rel(*old(state), m, px as int, py as int, pressed, click)]
                panel_click_rel(*old(state), m, px as int, py as int, pressed, click) && *final(state) == (if pressed {
                    m
                } else {
                    State { settings: SettingsState { slider_drag: false, ..m.settings }, ..m }
                })
        } else {
            r == ButtonOutcome::Panel(None) && *final(state) == *old(state)
        },
        !old(state).overlay_open && old(state).context_menu.open ==> if button == BTN_LEFT && pressed {
            r matches ButtonOutcome::Menu(Some(click)) && menu_click_rel(
                *old(state),
                *final(state),
                px as int,
                py as int,
                pressed,
                click,
            )
        } else {
            r == ButtonOutcome::Menu(None) && *final(state) == *old(state)
        },
        !old(state).overlay_open && !old(state).context_menu.open ==> ({
            let s = *old(state);
            let refocus = s.focused_is_x11 && s.x11_input_wanted && !s.spec_x11_input_active() && button == BTN_LEFT
                && pressed;
            if button == BTN_RIGHT && pressed && menu_modifier_held {
                let n = s.spec_app_count();
                let (ox, oy) = spec_menu_origin(px as int, py as int, s.output_w as int, s.output_h as int, n);
                &&& r == ButtonOutcome::MenuOpened
                &&& *final(state) == (State {
                    context_menu: ContextMenuState {
                        open: true,
                        origin_x: ox as i32,
                        origin_y: oy as i32,
                        hover: menu::hover_of(spec_hit_test(n, ox, oy, px as int, py as int)),
                    },
                    force_full_damage: true,
                    render_pending: true,
                    render_deadline: None,
                    ..s
                })
            } else if refocus {
                &&& r == ButtonOutcome::Client { refocus: Some(!s.spec_wm_ui_blocks_focus()) }
                &&& *final(state) == (State { render_pending: true, render_deadline: None, ..spec_apply_focus(s) })
            } else {
                &&& r == ButtonOutcome::Client { refocus: None }
                &&& *final(state) == (State { render_pending: true, render_deadline: None, ..s })
            }
        }),
{
    if state.overlay_open {
        if button == BTN_LEFT {
            let click = panel::handle_pointer_button(state, px, py, pressed);
            let ghost m = *state;
            if !pressed {
                panel::handle_pointer_release(state);
            }
            assert(panel_click_rel(*old(state), m, px as int, py as int, pressed, click));
            return ButtonOutcome::Panel(Some(click));
        }
        return ButtonOutcome::Panel(None);
    }
    if state.context_menu.open {
        if button == BTN_LEFT && pressed {
            let click = menu::handle_pointer_button(state, px, py, pressed);
            return ButtonOutcome::Menu(Some(click));
        }
        return ButtonOutcome::Menu(None);
    }
    let mut refocus: Option<bool> = None;
    if state.focused_is_x11 && state.x11_input_wanted && !state.x11_input_active() && button == BTN_LEFT && pressed {
        refocus = Some(state.apply_focus());
    }
    if button == BTN_RIGHT && pressed && menu_modifier_held {
        menu::open_at_logical(state, px, py);
        state.request_render();
        return ButtonOutcome::MenuOpened;
    }
    state.request_render();
    ButtonOutcome::Client { refocus }
}

/// Where a pointer motion went.
#[derive(Clone, Copy, Debug, PartialEq, Eq, Structural)]
pub enum MotionOutcome {
    /// The panel is open: hover and slider handled there.
    Panel(PanelMotion),
    /// The menu is open: `true` when its hover changed.
    Menu(bool),
    /// The switcher is open: nothing reaches the clients.
    Blocked,
    /// Deliver the motion to the client under the pointer.
    Client,
}

/// A pointer motion to the floored position `(px, py)` at time `now_ms`: overlay hover
/// changes ask for a redraw 16 ms later, motion over clients 8 ms later.
#[verifier::rlimit(30)]
pub fn handle_motion(state: &mut State, px: i32, py: i32, now_ms: u64) -> (r: MotionOutcome)
    requires
        panel_fits(*old(state)),
        count_fits(old(state).spec_app_count()),
        now_ms + OVERLAY_REDRAW_MS <= u64::MAX,
    ensures
        old(state).overlay_open ==> ({
            let s = *old(state);
            let hover = panel::hover_of(panel::spec_panel_hit(s, px as int, py as int));
            let m = State { settings: SettingsState { hover, ..s.settings }, ..s };
            &&& r matches MotionOutcome::Panel(pm)
            &&& pm.redraw == (s.settings.hover != hover)
            &&& *final(state) == if pm.redraw { spec_debounced(m, now_ms, OVERLAY_REDRAW_MS) } else { m }
        }),
        !old(state).overlay_open && old(state).context_menu.open ==> ({
            let s = *old(state);
            let hover = menu::hover_of(
                spec_hit_test(s.spec_app_count(), s.context_menu.origin_x as int, s.context_menu.origin_y as int, px as int, py as int),
            );
            let m = State { context_menu: ContextMenuState { hover, ..s.context_menu }, ..s };
            &&& r == MotionOutcome::Menu(s.context_menu.hover != hover)
            &&& *final(state) == if s.context_menu.hover != hover { spec_debounced(m, now_ms, OVERLAY_REDRAW_MS) } else { m }
        }),
        !old(state).overlay_open && !old(state).context_menu.open && old(state).alt_tab.open ==> r == MotionOutcome::Blocked
            && *final(state) == *old(state),
        !wm_ui_open(*old(state)) ==> r == MotionOutcome::Client && *final(state) == spec_debounced(
            *old(state),
            now_ms,
            CLIENT_REDRAW_MS,
        ),
{
    if state.overlay_open {
        let pm = panel::handle_pointer_motion(state, px, py);
        if pm.redraw {
            state.request_render_debounced(now_ms, OVERLAY_REDRAW_MS);
        }
        return MotionOutcome::Panel(pm);
    }
    if state.context_menu.open {
        let changed = menu::handle_pointer_motion(state, px, py);
        if changed {
            state.request_render_debounced(now_ms, OVERLAY_REDRAW_MS);
        }
        return MotionOutcome::Menu(changed);
    }
    if state.alt_tab.open {
        return MotionOutcome::Blocked;
    }
    state.request_render_debounced(now_ms, CLIENT_REDRAW_MS);
    MotionOutcome::Client
}

} // verus!
