//! The settings panel toggle (Ctrl+Alt+Del, Ctrl+Shift+Esc, Super+Esc, Super+Del), requested
//! from any thread and applied on the main loop.

use std::sync::atomic::{AtomicBool, Ordering};
use std::sync::Arc;

use vstd::prelude::*;

use crate::apps::{focus_unified_rel, spec_resync, FocusPlan};
use crate::settings::input::{reset_on_open, reset_settings};
use crate::state::State;

verus! {

pub const PANEL_W: i32 = crate::settings::theme::PANEL_W;
pub const PANEL_H: i32 = crate::settings::theme::PANEL_H;

/// What toggling the panel did.
#[derive(Clone, Copy, Debug, PartialEq, Eq, Structural)]
pub enum OverlayToggle {
    /// The panel opened (reset to its main screen): client keyboard is to be suspended.
    Opened,
    /// The panel closed and input is to be restored; an app that mapped meanwhile was
    /// focused with this plan.
    Closed(Option<FocusPlan>),
}

/// `t` and `r` are what toggling the panel makes of `s`.
pub open spec fn toggle_rel(s: State, t: State, r: OverlayToggle) -> bool {
    if !s.overlay_open {
        r == OverlayToggle::Opened && t == (State {
            overlay_open: true,
            settings: reset_settings(),
            force_full_damage: true,
            render_pending: true,
            render_deadline: None,
            ..s
        })
    } else {
        let (s2, pending) = spec_resync(State { overlay_open: false, ..s });
        match pending {
            None => r == OverlayToggle::Closed(None) && t == (State {
                force_full_damage: true,
                render_pending: true,
                render_deadline: None,
                ..s2
            }),
            Some(i) => exists|m: State, plan: FocusPlan|
                #![trigger focus_unified_rel(s2, i, m, plan)]
                focus_unified_rel(s2, i, m, plan) && r == OverlayToggle::Closed(Some(plan)) && t == (State {
                    force_full_damage: true,
                    render_pending: true,
                    render_deadline: None,
                    ..m
                }),
        }
    }
}

/// Closes the panel and restores input, focusing an app that mapped while it was open.
fn close_panel(state: &mut State) -> (r: Option<FocusPlan>)
    requires
        old(state).spec_app_count() <= usize::MAX,
    ensures
        ({
            let (s2, pending) = spec_resync(State { overlay_open: false, ..*old(state) });
            match pending {
                None => r is None && *final(state) == s2,
                Some(i) => r matches Some(plan) && focus_unified_rel(s2, i, *final(state), plan),
            }
        }),
{
    let ghost s0 = *state;
    state.overlay_open = false;
    assert(*state == (State { overlay_open: false, ..s0 }));
    match state.resync_input_after_overlay() {
        Some(idx) => Some(state.focus_unified(idx)),
        None => None,
    }
}

fn redraw_all(state: &mut State)
    ensures
        *final(state) == (State {
            force_full_damage: true,
            render_pending: true,
            render_deadline: None,
            ..*old(state)
        }),
{
    state.note_full_damage();
    state.request_render();
}

/// Opens or closes the settings panel and schedules a full redraw.
#[verifier::rlimit(30)]
pub fn toggle_overlay(state: &mut State) -> (r: OverlayToggle)
    requires
        old(state).spec_app_count() <= usize::MAX,
    ensures
        toggle_rel(*old(state), *final(state), r),
{
    let ghost s0 = *state;
    if !state.overlay_open {
        state.overlay_open = true;
        assert(*state == (State { overlay_open: true, ..s0 }));
        reset_on_open(state);
        assert(*state == (State { overlay_open: true, settings: reset_settings(), ..s0 }));
        redraw_all(state);
        OverlayToggle::Opened
    } else {
        let plan = close_panel(state);
        let ghost m = *state;
        redraw_all(state);
        proof {
            let (s2, pending) = spec_resync(State { overlay_open: false, ..s0 });
            if let Some(i) = pending {
                assert(focus_unified_rel(s2, i, m, plan->0));
            }
        }
        OverlayToggle::Closed(plan)
    }
}

/// Toggling the panel flips it: toggling twice leaves it as it was, and a toggle reports
/// opening exactly when the panel was closed.
pub proof fn lemma_toggle_twice(s: State, t: State, u: State, r1: OverlayToggle, r2: OverlayToggle)
    requires
        toggle_rel(s, t, r1),
        toggle_rel(t, u, r2),
    ensures
        t.overlay_open == !s.overlay_open,
        u.overlay_open == s.overlay_open,
        (r1 == OverlayToggle::Opened) == !s.overlay_open,
        (r2 == OverlayToggle::Opened) == s.overlay_open,
{
    lemma_toggle_flips(s, t, r1);
    lemma_toggle_flips(t, u, r2);
}

proof fn lemma_toggle_flips(s: State, t: State, r: OverlayToggle)
    requires
        toggle_rel(s, t, r),
    ensures
        t.overlay_open == !s.overlay_open,
        (r == OverlayToggle::Opened) == !s.overlay_open,
{
    if s.overlay_open {
        let (s2, pending) = spec_resync(State { overlay_open: false, ..s });
        if let Some(i) = pending {
            let (m, plan) = choose|m: State, plan: FocusPlan|
                focus_unified_rel(s2, i, m, plan) && r == OverlayToggle::Closed(Some(plan)) && t == (State {
                    force_full_damage: true,
                    render_pending: true,
                    render_deadline: None,
                    ..m
                });
            crate::apps::lemma_focus_keeps_apps(s2, i, m, plan);
        }
    }
}

/// A pending panel toggle, requested from the evdev thread or a key handler.
///
/// The flag is shared with another thread: what a read returns is not claimed here.
pub struct OverlayControl {
    toggle_requested: AtomicBool,
    wake_loop: bool,
}

impl OverlayControl {
    /// The main loop must be woken (by a signal) after each change (TTY); a nested session
    /// polls every frame.
    pub closed spec fn wakes_loop(&self) -> bool {
        self.wake_loop
    }

    pub fn new() -> (r: Arc<Self>)
        ensures
            !r.wakes_loop(),
    {
        Self::with_loop_wake(false)
    }

    pub fn with_loop_wake(wake: bool) -> (r: Arc<Self>)
        ensures
            r.wakes_loop() == wake,
    {
        Arc::new(OverlayControl { toggle_requested: AtomicBool::new(false), wake_loop: wake })
    }

    /// Records a toggle request; `true` when the caller must wake the main loop.
    pub fn request_toggle(&self) -> (wake: bool)
        ensures
            wake == self.wakes_loop(),
    {
        self.toggle_requested.store(true, Ordering::SeqCst);
        self.notify_changed()
    }

    /// Toggles right away (main loop); the flag says whether to wake the loop.
    pub fn toggle_now(&self, state: &mut State) -> (r: (OverlayToggle, bool))
        requires
            old(state).spec_app_count() <= usize::MAX,
        ensures
            toggle_rel(*old(state), *final(state), r.0),
            r.1 == self.wakes_loop(),
    {
        let t = toggle_overlay(state);
        (t, self.notify_changed())
    }

    /// `true` when the main loop must be woken.
    pub fn notify_changed(&self) -> (wake: bool)
        ensures
            wake == self.wakes_loop(),
    {
        self.wake_loop
    }

    /// Applies a pending toggle request, if any.
    pub fn poll(&self, state: &mut State) -> (r: Option<OverlayToggle>)
        requires
            old(state).spec_app_count() <= usize::MAX,
        ensures
            match r {
                None => *final(state) == *old(state),
                Some(t) => toggle_rel(*old(state), *final(state), t),
            },
    {
        if self.toggle_requested.swap(false, Ordering::SeqCst) {
            Some(toggle_overlay(state))
        } else {
            None
        }
    }
}

} // verus!
