//! The compositor's WM state as plain values: apps, focus, overlays, MRU order and render scheduling.

use std::sync::atomic::{AtomicBool, Ordering};
use std::sync::Arc;

use vstd::prelude::*;

use crate::alt_tab::AltTabState;
use crate::apps::{RunningApp, X11App};
use crate::context_menu::ContextMenuState;
use crate::i18n::I18n;
use crate::modifiers::ModifierTracker;
use crate::settings::SettingsState;

verus! {

/// Everything the window-management logic reads and decides on.
pub struct State {
    /// Wayland toplevels in map order.
    pub running_apps: Vec<RunningApp>,
    /// X11 windows in map order.
    pub x11_apps: Vec<X11App>,
    pub focused_app: usize,
    pub focused_x11: usize,
    pub focused_is_x11: bool,
    /// X11 focus requested but its `wl_surface` is not associated yet.
    pub x11_focus_pending: bool,
    /// Input should go to X11 (false right after map: the window is only raised).
    pub x11_input_wanted: bool,
    /// Newly mapped X11 window — auto-focus only on its first map.
    pub x11_autofocus_idx: Option<usize>,
    /// Focus change postponed while a WM menu or panel is open.
    pub deferred_focus: bool,
    /// Unified index of a new app to focus once the WM UI closes.
    pub pending_autofocus: Option<usize>,
    /// Deadline (ms) after which focus falls back to the terminal if no X11 window mapped.
    pub x11_foot_refocus_at: Option<u64>,
    /// A client popup grab is active.
    pub active_popup: bool,
    pub output_w: i32,
    pub output_h: i32,
    pub overlay_open: bool,
    pub settings: SettingsState,
    pub context_menu: ContextMenuState,
    pub alt_tab: AltTabState,
    /// Recently used apps (unified indices), most recent first.
    pub app_mru: Vec<usize>,
    pub i18n: I18n,
    /// Super keys seen by the compositor keyboard (KDE may not deliver them).
    pub local_super_keys: u8,
    pub local_right_alt_keys: u8,
    /// Modifiers seen by the evdev reader thread.
    pub mod_tracker: Arc<ModifierTracker>,
    pub console_backdrop_enabled: bool,
    /// A frame is scheduled.
    pub render_pending: bool,
    /// Earliest time (ms) the scheduled frame may be drawn.
    pub render_deadline: Option<u64>,
    pub force_full_damage: bool,
    pub pointer_flush_pending: bool,
    pub pending_pointer_time: u32,
    pub serial: u32,
}

/// A new exit flag shared between the main loop, signal handlers and the evdev thread.
pub fn new_exit_flag() -> (r: Arc<AtomicBool>) {
    Arc::new(AtomicBool::new(false))
}

/// Sets the exit flag; the main loop stops on its next check.
pub fn request_exit(flag: &AtomicBool) {
    flag.store(true, Ordering::SeqCst);
}

/// Reads the shared exit flag (set from signal handlers and other threads).
pub fn should_exit(flag: &AtomicBool) -> bool {
    flag.load(Ordering::SeqCst)
}

/// A frame is scheduled and its deadline (if any) has come at `now_ms`.
pub open spec fn frame_due(s: State, now_ms: u64) -> bool {
    s.render_pending && match s.render_deadline {
        Some(d) => now_ms >= d,
        None => true,
    }
}

/// State after `request_render_debounced(now_ms, delay_ms)`.
pub open spec fn spec_debounced(s: State, now_ms: u64, delay_ms: u64) -> State {
    State {
        render_pending: true,
        render_deadline: Some(
            match s.render_deadline {
                Some(c) => if c <= now_ms + delay_ms { c } else { (now_ms + delay_ms) as u64 },
                None => (now_ms + delay_ms) as u64,
            },
        ),
        ..s
    }
}

/// A requested frame is due at once; a debounced one is due once its delay has passed,
/// and debouncing never postpones a frame already scheduled for earlier.
pub proof fn lemma_render_requests(s: State, now_ms: u64, delay_ms: u64, later_ms: u64)
    requires
        now_ms + delay_ms <= u64::MAX,
        later_ms >= now_ms + delay_ms,
    ensures
        frame_due(State { render_pending: true, render_deadline: None, ..s }, now_ms),
        frame_due(spec_debounced(s, now_ms, delay_ms), later_ms),
        s.render_pending && frame_due(s, later_ms) ==> frame_due(spec_debounced(s, now_ms, delay_ms), later_ms),
        forall|t: u64| frame_due(s, t) && s.render_deadline is Some ==> #[trigger] frame_due(
            spec_debounced(s, now_ms, delay_ms),
            t,
        ),
{
}

/// Which frame-draw state a new session starts with.
pub open spec fn fresh(
    s: State,
    output_w: i32,
    output_h: i32,
    i18n: I18n,
    console_backdrop: bool,
    mod_tracker: Arc<ModifierTracker>,
) -> bool {
    &&& s.running_apps@.len() == 0
    &&& s.x11_apps@.len() == 0
    &&& s.focused_app == 0
    &&& s.focused_x11 == 0
    &&& !s.focused_is_x11
    &&& !s.x11_focus_pending
    &&& !s.x11_input_wanted
    &&& s.x11_autofocus_idx is None
    &&& !s.deferred_focus
    &&& s.pending_autofocus is None
    &&& s.x11_foot_refocus_at is None
    &&& !s.active_popup
    &&& s.output_w == output_w
    &&& s.output_h == output_h
    &&& !s.overlay_open
    &&& s.settings.screen == crate::settings::Screen::Main
    &&& s.settings.confirm is None
    &&& !s.settings.slider_drag
    &&& s.settings.hover is None
    &&& !s.context_menu.open
    &&& s.context_menu.origin_x == 0
    &&& s.context_menu.origin_y == 0
    &&& s.context_menu.hover is None
    &&& !s.alt_tab.open
    &&& s.alt_tab.slot == 0
    &&& s.app_mru@.len() == 0
    &&& s.i18n == i18n
    &&& s.local_super_keys == 0
    &&& s.local_right_alt_keys == 0
    &&& s.mod_tracker == mod_tracker
    &&& s.console_backdrop_enabled == console_backdrop
    &&& s.render_pending
    &&& s.render_deadline is None
    &&& s.force_full_damage
    &&& !s.pointer_flush_pending
    &&& s.pending_pointer_time == 0
    &&& s.serial == 0
}

impl State {
    /// A session with no apps: first frame pending with full damage.
    pub fn new(
        output_w: i32,
        output_h: i32,
        i18n: I18n,
        console_backdrop_enabled: bool,
        mod_tracker: Arc<ModifierTracker>,
    ) -> (s: Self)
        ensures
            fresh(s, output_w, output_h, i18n, console_backdrop_enabled, mod_tracker),
    {
        State {
            running_apps: Vec::new(),
            x11_apps: Vec::new(),
            focused_app: 0,
            focused_x11: 0,
            focused_is_x11: false,
            x11_focus_pending: false,
            x11_input_wanted: false,
            x11_autofocus_idx: None,
            deferred_focus: false,
            pending_autofocus: None,
            x11_foot_refocus_at: None,
            active_popup: false,
            output_w,
            output_h,
            overlay_open: false,
            settings: SettingsState::default(),
            context_menu: ContextMenuState::default(),
            alt_tab: AltTabState::default(),
            app_mru: Vec::new(),
            i18n,
            local_super_keys: 0,
            local_right_alt_keys: 0,
            mod_tracker,
            console_backdrop_enabled,
            render_pending: true,
            render_deadline: None,
            force_full_damage: true,
            pointer_flush_pending: false,
            pending_pointer_time: 0,
            serial: 0,
        }
    }

    /// The next protocol serial; after `u32::MAX` the counter wraps around to 0.
    pub fn next_serial(&mut self) -> (r: u32)
        ensures
            r == (if old(self).serial == u32::MAX { 0 } else { old(self).serial + 1 }),
            *final(self) == (State { serial: r, ..*old(self) }),
    {
        self.serial = self.serial.wrapping_add(1);
        self.serial
    }

    pub fn request_render(&mut self)
        ensures
            *final(self) == (State { render_pending: true, render_deadline: None, ..*old(self) }),
    {
        self.render_pending = true;
        self.render_deadline = None;
    }

    /// Schedules a frame no later than `delay_ms` after `now_ms` (keeps an earlier deadline).
    pub fn request_render_debounced(&mut self, now_ms: u64, delay_ms: u64)
        requires
            now_ms + delay_ms <= u64::MAX,
        ensures
            *final(self) == spec_debounced(*old(self), now_ms, delay_ms),
    {
        self.render_pending = true;
        let deadline = now_ms + delay_ms;
        self.render_deadline = Some(
            match self.render_deadline {
                Some(current) => if current <= deadline { current } else { deadline },
                None => deadline,
            },
        );
    }

    /// Consumes the scheduled frame when its deadline has come.
    pub fn take_render_pending(&mut self, now_ms: u64) -> (r: bool)
        ensures
            r == frame_due(*old(self), now_ms),
            r ==> *final(self) == (State { render_pending: false, render_deadline: None, ..*old(self) }),
            !r ==> *final(self) == *old(self),
    {
        if !self.render_pending {
            return false;
        }
        if let Some(deadline) = self.render_deadline {
            if now_ms < deadline {
                return false;
            }
        }
        self.render_pending = false;
        self.render_deadline = None;
        true
    }

    pub fn note_full_damage(&mut self)
        ensures
            *final(self) == (State { force_full_damage: true, ..*old(self) }),
    {
        self.force_full_damage = true;
    }

    pub fn wants_full_damage(&self) -> (r: bool)
        ensures
            r == (self.force_full_damage || self.overlay_open || self.context_menu.open
                || self.alt_tab.open || self.active_popup),
    {
        self.force_full_damage || self.overlay_open || self.context_menu.open || self.alt_tab.open
            || self.active_popup
    }

    /// A WM overlay is open: apps are not composited underneath.
    pub fn wm_ui_obscures_apps(&self) -> (r: bool)
        ensures
            r == (self.overlay_open || self.context_menu.open || self.alt_tab.open),
    {
        self.overlay_open || self.context_menu.open || self.alt_tab.open
    }

    pub fn finish_frame_damage_state(&mut self)
        ensures
            *final(self) == (State { force_full_damage: false, ..*old(self) }),
    {
        self.force_full_damage = false;
    }

    pub fn mark_pointer_moved(&mut self, time: u32)
        ensures
            *final(self) == (State { pointer_flush_pending: true, pending_pointer_time: time, ..*old(self) }),
    {
        self.pointer_flush_pending = true;
        self.pending_pointer_time = time;
    }

    /// Takes a pending pointer motion; `Some(time)` when it must be delivered to the client
    /// (not while a WM overlay is open).
    pub fn flush_pointer_to_client(&mut self) -> (r: Option<u32>)
        ensures
            *final(self) == (State { pointer_flush_pending: false, ..*old(self) }),
            r == (if old(self).pointer_flush_pending && !(old(self).overlay_open
                || old(self).context_menu.open || old(self).alt_tab.open) {
                Some(old(self).pending_pointer_time)
            } else {
                None::<u32>
            }),
    {
        if !self.pointer_flush_pending {
            return None;
        }
        if self.overlay_open || self.context_menu.open || self.alt_tab.open {
            self.pointer_flush_pending = false;
            return None;
        }
        self.pointer_flush_pending = false;
        Some(self.pending_pointer_time)
    }

    pub fn needs_x11_dispatch(&self) -> (r: bool)
        ensures
            r == (self.x11_apps@.len() > 0 || self.x11_focus_pending),
    {
        !self.x11_apps.is_empty() || self.x11_focus_pending
    }

    /// Client dispatch rounds per frame: more while a popup or a WM menu is being driven.
    pub fn wayland_dispatch_rounds(&self) -> (r: usize)
        ensures
            r == (if self.overlay_open {
                1usize
            } else if self.active_popup {
                10usize
            } else if self.context_menu.open || self.alt_tab.open {
                4usize
            } else {
                1usize
            }),
    {
        if self.overlay_open {
            return 1;
        }
        if self.active_popup {
            return 10;
        }
        if self.context_menu.open || self.alt_tab.open {
            return 4;
        }
        1
    }

    pub fn wayland_post_frame_rounds(&self) -> (r: usize)
        ensures
            r == (if self.active_popup {
                10usize
            } else if self.context_menu.open || self.alt_tab.open || self.overlay_open {
                4usize
            } else {
                2usize
            }),
    {
        if self.active_popup {
            return 10;
        }
        if self.context_menu.open || self.alt_tab.open || self.overlay_open {
            return 4;
        }
        2
    }

    pub open spec fn spec_x11_input_active(&self) -> bool {
        &&& self.focused_is_x11
        &&& self.x11_input_wanted
        &&& !self.x11_focus_pending
        &&& self.focused_x11 < self.x11_apps@.len()
        &&& self.x11_apps@[self.focused_x11 as int].has_wl_surface
    }

    /// Input goes to the focused X11 window right now.
    pub fn x11_input_active(&self) -> (r: bool)
        ensures
            r == self.spec_x11_input_active(),
    {
        self.focused_is_x11 && self.x11_input_wanted && !self.x11_focus_pending
            && self.focused_x11 < self.x11_apps.len()
            && self.x11_apps[self.focused_x11].has_wl_surface
    }
}

} // verus!

verus! {

use crate::apps::{spec_apply_focus, synced_mru, touched_mru};

/// Outcome of a new Wayland toplevel.
#[derive(Clone, Copy, Debug, PartialEq, Eq, Structural)]
pub struct NewToplevel {
    /// The first app: configured active and focused; later ones map in the background.
    pub first: bool,
    /// `apply_focus` went through: dispatch input focus now.
    pub dispatch_focus: bool,
}

/// Outcome of a destroyed Wayland toplevel.
#[derive(Clone, Copy, Debug, PartialEq, Eq, Structural)]
pub enum Destroyed {
    /// No app left: the compositor exits.
    Exit,
    /// Focus was re-applied; `true` asks for an input-focus dispatch.
    Refocus(bool),
}

/// The focused index after removing entry `pos` from a list that now has `len` entries.
/// With the list emptied, `len - 1` wraps to `usize::MAX`, an index that names no entry.
pub open spec fn focus_after_removal(focused: usize, pos: usize, len: int) -> usize {
    if focused >= len {
        if len == 0 {
            usize::MAX
        } else {
            (len - 1) as usize
        }
    } else if focused > pos {
        (focused - 1) as usize
    } else {
        focused
    }
}

/// `t` and `r` are what destroying Wayland toplevel `pos` makes of `s`: the entry leaves the
/// list; with no app left the compositor exits, otherwise the focus index follows the
/// removal (see `focus_after_removal`), popups are dropped and focus is applied.
pub open spec fn destroyed_rel(s: State, t: State, pos: usize, r: Destroyed) -> bool {
    &&& t.running_apps@ == s.running_apps@.remove(pos as int)
    &&& ({
        let len = s.running_apps@.len() - 1;
        let s1 = State { running_apps: t.running_apps, ..s };
        if len == 0 && s.x11_apps@.len() == 0 {
            r == Destroyed::Exit && t == s1
        } else {
            let s2 = State { focused_app: focus_after_removal(s.focused_app, pos, len), active_popup: false, ..s1 };
            r == Destroyed::Refocus(!s2.spec_wm_ui_blocks_focus()) && t == spec_apply_focus(s2)
        }
    })
}

/// Closing a Wayland app other than the focused one keeps the user in the app they were
/// in: the focused index still names the same app (one lower when the closed app was
/// before it) and the focus stays on the Wayland side as it was.
pub proof fn lemma_background_close_keeps_focus(s: State, t: State, pos: usize, r: Destroyed)
    requires
        (pos as int) < s.running_apps@.len(),
        (s.focused_app as int) < s.running_apps@.len(),
        pos != s.focused_app,
        destroyed_rel(s, t, pos, r),
    ensures
        r is Refocus,
        (t.focused_app as int) < t.running_apps@.len(),
        t.running_apps@[t.focused_app as int] == s.running_apps@[s.focused_app as int],
        t.focused_is_x11 == s.focused_is_x11,
{
    let len = s.running_apps@.len() - 1;
    assert(len >= 1);
    let f = focus_after_removal(s.focused_app, pos, len);
    if s.focused_app > pos {
        assert(f == s.focused_app - 1);
        assert(t.running_apps@[f as int] == s.running_apps@.remove(pos as int)[f as int]);
    } else {
        assert(f == s.focused_app);
        assert(t.running_apps@[f as int] == s.running_apps@.remove(pos as int)[f as int]);
    }
}

impl State {
    /// Registers a new Wayland toplevel (after XWayland ghosts were purged).
    #[verifier::rlimit(40)]
    pub fn new_toplevel(&mut self, name: String) -> (r: NewToplevel)
        requires
            old(self).spec_app_count() < usize::MAX,
        ensures
            final(self).running_apps@ == old(self).running_apps@.push(RunningApp { display_name: name }),
            r.first == (old(self).running_apps@.len() == 0),
            ({
                let s1 = State { running_apps: final(self).running_apps, ..*old(self) };
                if r.first {
                    let s2 = State { focused_is_x11: false, focused_app: 0, ..s1 };
                    &&& r.dispatch_focus == !s2.spec_wm_ui_blocks_focus()
                    &&& (State { app_mru: s2.app_mru, ..*final(self) }) == spec_apply_focus(s2)
                    &&& final(self).app_mru@ == synced_mru(
                        if (0 as int) < s1.spec_app_count() { touched_mru(old(self).app_mru@, 0) } else { old(self).app_mru@ },
                        s1.spec_app_count(),
                    )
                } else {
                    &&& !r.dispatch_focus
                    &&& (State { app_mru: s1.app_mru, ..*final(self) }) == s1
                    &&& final(self).app_mru@ == synced_mru(old(self).app_mru@, s1.spec_app_count())
                }
            }),
    {
        let index = self.running_apps.len();
        let is_first = index == 0;
        let ghost s0 = *self;
        self.running_apps.push(RunningApp { display_name: name });
        let ghost s1 = *self;
        assert(s1 == (State { running_apps: s1.running_apps, ..s0 }));
        let mut dispatch_focus = false;
        if is_first {
            self.focused_is_x11 = false;
            self.focused_app = index;
            let ghost s2 = *self;
            assert(s2 == (State { focused_is_x11: false, focused_app: 0, ..s1 }));
            let u = self.unified_focus_index();
            assert(u == 0);
            self.touch_mru(u);
            dispatch_focus = self.apply_focus();
            assert((State { app_mru: s2.app_mru, ..*self }) == spec_apply_focus(s2));
        }
        let ghost s3 = *self;
        self.sync_app_mru();
        assert((State { app_mru: s3.app_mru, ..*self }) == s3);
        NewToplevel { first: is_first, dispatch_focus }
    }

    /// A Wayland toplevel at `pos` was destroyed.
    #[verifier::rlimit(40)]
    pub fn toplevel_destroyed(&mut self, pos: usize) -> (r: Destroyed)
        requires
            (pos as int) < old(self).running_apps@.len(),
        ensures
            destroyed_rel(*old(self), *final(self), pos, r),
    {
        let ghost s0 = *self;
        self.running_apps.remove(pos);
        let ghost s1 = *self;
        assert(s1 == (State { running_apps: s1.running_apps, ..s0 }));
        if self.running_apps.is_empty() && self.x11_apps.is_empty() {
            return Destroyed::Exit;
        }
        let len = self.running_apps.len();
        let focused = if self.focused_app >= len {
            len.wrapping_sub(1)
        } else if self.focused_app > pos {
            self.focused_app - 1
        } else {
            self.focused_app
        };
        self.focused_app = focused;
        self.active_popup = false;
        assert(*self == (State { focused_app: focused, active_popup: false, ..s1 }));
        Destroyed::Refocus(self.apply_focus())
    }

    /// XWayland asked for a keyboard grab on X11 window `idx` (if known): input goes there.
    /// `true`: dispatch input focus now (otherwise deferred while WM UI is open).
    pub fn xwayland_keyboard_grab(&mut self, idx: Option<usize>) -> (r: bool)
        ensures
            ({
                let s1 = match idx {
                    Some(i) => State {
                        focused_is_x11: true,
                        focused_x11: i,
                        x11_input_wanted: true,
                        x11_focus_pending: false,
                        ..*old(self)
                    },
                    None => *old(self),
                };
                &&& r == !s1.spec_wm_ui_blocks_focus()
                &&& *final(self) == spec_apply_focus(s1)
            }),
    {
        if let Some(i) = idx {
            self.focused_is_x11 = true;
            self.focused_x11 = i;
            self.x11_input_wanted = true;
            self.x11_focus_pending = false;
        }
        self.apply_focus()
    }
}

} // verus!
