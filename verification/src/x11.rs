//! XWayland window lifecycle as seen by the WM logic (Krita snap, Kate, …).

use vstd::prelude::*;

use crate::apps::{spec_apply_focus, synced_mru, FocusPlan, RunningApp, X11App};
use crate::state::State;

verus! {

/// What a map notification asks for.
#[derive(Clone, Copy, Debug, PartialEq, Eq, Structural)]
pub enum MapNotify {
    Nothing,
    /// Focus was re-applied; `true` asks for an input-focus dispatch.
    ApplyFocus(bool),
    /// First map of a new window: it takes focus and input.
    Focus(FocusPlan),
}

impl State {
    /// An X11 window asked to be mapped. `known`: it is already registered.
    /// A new window is registered in the background (focus stays put) and marked for auto-focus.
    pub fn map_window_request(&mut self, name: String, known: bool) -> (is_new: bool)
        requires
            old(self).spec_app_count() < usize::MAX,
        ensures
            is_new == !known,
            known ==> *final(self) == *old(self),
            !known ==> {
                &&& final(self).x11_apps@ == old(self).x11_apps@.push(X11App { display_name: name, has_wl_surface: false })
                &&& final(self).app_mru@ == synced_mru(old(self).app_mru@, old(self).spec_app_count() + 1)
                &&& *final(self) == (State {
                    x11_apps: final(self).x11_apps,
                    app_mru: final(self).app_mru,
                    x11_autofocus_idx: Some(old(self).x11_apps@.len() as usize),
                    ..*old(self)
                })
            },
    {
        if known {
            return false;
        }
        let idx = self.x11_apps.len();
        self.x11_apps.push(X11App { display_name: name, has_wl_surface: false });
        self.x11_autofocus_idx = Some(idx);
        self.sync_app_mru();
        true
    }

    /// X11 window `idx` (if registered) is now mapped on screen.
    #[verifier::rlimit(40)]
    pub fn map_window_notify(&mut self, idx: Option<usize>) -> (r: MapNotify)
        requires
            old(self).spec_app_count() <= usize::MAX,
        ensures
            match idx {
                Some(i) if old(self).x11_focus_pending && old(self).focused_is_x11 && old(self).focused_x11 == i
                    && old(self).x11_input_wanted => {
                    let s1 = State { x11_focus_pending: false, ..*old(self) };
                    r == MapNotify::ApplyFocus(!s1.spec_wm_ui_blocks_focus()) && *final(self) == spec_apply_focus(s1)
                },
                Some(i) if old(self).x11_autofocus_idx == Some(i) && !old(self).spec_wm_ui_blocks_focus() => {
                    let s1 = State { x11_autofocus_idx: None, ..*old(self) };
                    &&& r matches MapNotify::Focus(plan)
                    &&& (State { app_mru: s1.app_mru, ..*final(self) }, plan) == crate::apps::spec_focus_x11(s1, i)
                    &&& final(self).app_mru@ == crate::apps::spec_focus_x11_mru(s1, i)
                },
                _ => r == MapNotify::Nothing && *final(self) == *old(self),
            },
    {
        if let Some(i) = idx {
            if self.x11_focus_pending && self.focused_is_x11 && self.focused_x11 == i && self.x11_input_wanted {
                self.x11_focus_pending = false;
                return MapNotify::ApplyFocus(self.apply_focus());
            }
            if self.x11_autofocus_idx == Some(i) && !self.context_menu.open && !self.overlay_open
                && !self.alt_tab.open {
                let ghost s0 = *self;
                self.x11_autofocus_idx = None;
                assert(*self == (State { x11_autofocus_idx: None, ..s0 }));
                return MapNotify::Focus(self.focus_x11(i));
            }
        }
        MapNotify::Nothing
    }

    /// X11 window `idx` (if registered) was unmapped and leaves the app list.
    /// `true`: dispatch input focus now.
    #[verifier::rlimit(40)]
    pub fn unmapped_window(&mut self, idx: Option<usize>) -> (r: bool)
        requires
            idx matches Some(i) ==> (i as int) < old(self).x11_apps@.len(),
        ensures
            final(self).x11_apps@ == match idx {
                Some(i) => old(self).x11_apps@.remove(i as int),
                None => old(self).x11_apps@,
            },
            ({
                let s1 = State { x11_apps: final(self).x11_apps, ..*old(self) };
                let n = final(self).x11_apps@.len();
                if n == 0 {
                    if s1.focused_is_x11 {
                        let wl = s1.running_apps@.len();
                        let s2 = State {
                            focused_is_x11: false,
                            x11_input_wanted: false,
                            x11_focus_pending: false,
                            focused_app: if wl > 0 && s1.focused_app >= wl {
                                (wl - 1) as usize
                            } else {
                                s1.focused_app
                            },
                            ..s1
                        };
                        r == !s2.spec_wm_ui_blocks_focus() && *final(self) == spec_apply_focus(s2)
                    } else {
                        !r && *final(self) == s1
                    }
                } else {
                    !r && *final(self) == (State {
                        focused_x11: if s1.focused_x11 >= n { (n - 1) as usize } else { s1.focused_x11 },
                        ..s1
                    })
                }
            }),
    {
        let ghost s0 = *self;
        if let Some(i) = idx {
            self.x11_apps.remove(i);
        }
        let ghost s1 = *self;
        assert(s1 == (State { x11_apps: s1.x11_apps, ..s0 }));
        if self.x11_apps.is_empty() {
            if self.focused_is_x11 {
                let wl = self.running_apps.len();
                let focused = if wl > 0 && self.focused_app >= wl { wl - 1 } else { self.focused_app };
                self.focused_is_x11 = false;
                self.x11_input_wanted = false;
                self.x11_focus_pending = false;
                self.focused_app = focused;
                assert(*self == (State {
                    focused_is_x11: false,
                    x11_input_wanted: false,
                    x11_focus_pending: false,
                    focused_app: focused,
                    ..s1
                }));
                return self.apply_focus();
            }
            return false;
        }
        if self.focused_x11 >= self.x11_apps.len() {
            self.focused_x11 = self.x11_apps.len() - 1;
        }
        false
    }

    /// X11 window `idx` (if still registered) was destroyed. `true`: no app left, quit.
    pub fn destroyed_window(&mut self, idx: Option<usize>) -> (exit: bool)
        requires
            idx matches Some(i) ==> (i as int) < old(self).x11_apps@.len(),
        ensures
            final(self).x11_apps@ == match idx {
                Some(i) => old(self).x11_apps@.remove(i as int),
                None => old(self).x11_apps@,
            },
            *final(self) == (State { x11_apps: final(self).x11_apps, ..*old(self) }),
            exit == (final(self).x11_apps@.len() == 0 && old(self).running_apps@.len() == 0),
    {
        if let Some(i) = idx {
            self.x11_apps.remove(i);
        }
        self.x11_apps.is_empty() && self.running_apps.is_empty()
    }

    /// The XWayland `wl_surface` of X11 window `idx` became known. `true`: dispatch input focus now.
    pub fn surface_associated(&mut self, idx: usize) -> (r: bool)
        requires
            (idx as int) < old(self).x11_apps@.len(),
        ensures
            ({
                let s1 = State {
                    x11_apps: final(self).x11_apps,
                    ..*old(self)
                };
                &&& final(self).x11_apps@ == old(self).x11_apps@.update(
                    idx as int,
                    X11App { has_wl_surface: true, ..old(self).x11_apps@[idx as int] },
                )
                &&& if s1.focused_is_x11 && s1.focused_x11 == idx && s1.x11_input_wanted {
                    let s2 = State { x11_focus_pending: false, ..s1 };
                    r == !s2.spec_wm_ui_blocks_focus() && *final(self) == spec_apply_focus(s2)
                } else {
                    !r && *final(self) == s1
                }
            }),
    {
        let name = self.x11_apps[idx].display_name.clone();
        self.x11_apps.set(idx, X11App { display_name: name, has_wl_surface: true });
        if self.focused_is_x11 && self.focused_x11 == idx && self.x11_input_wanted {
            self.x11_focus_pending = false;
            return self.apply_focus();
        }
        false
    }

    /// Hints/protocols of X11 window `idx` changed: a pending focus on it is retried.
    /// `true`: dispatch input focus now.
    pub fn property_notify(&mut self, idx: usize) -> (r: bool)
        ensures
            if old(self).focused_is_x11 && old(self).focused_x11 == idx && old(self).x11_input_wanted
                && old(self).x11_focus_pending {
                let s1 = State { x11_focus_pending: false, ..*old(self) };
                r == !s1.spec_wm_ui_blocks_focus() && *final(self) == spec_apply_focus(s1)
            } else {
                !r && *final(self) == *old(self)
            },
    {
        if self.focused_is_x11 && self.focused_x11 == idx && self.x11_input_wanted && self.x11_focus_pending {
            self.x11_focus_pending = false;
            return self.apply_focus();
        }
        false
    }

    /// The title of X11 window `idx` changed; `true` when the shown name changed.
    pub fn sync_x11_name(&mut self, idx: usize, name: String) -> (changed: bool)
        requires
            (idx as int) < old(self).x11_apps@.len(),
        ensures
            changed == (old(self).x11_apps@[idx as int].display_name@ != name@),
            final(self).x11_apps@ == (if changed {
                old(self).x11_apps@.update(idx as int, X11App { display_name: name, ..old(self).x11_apps@[idx as int] })
            } else {
                old(self).x11_apps@
            }),
            *final(self) == (State { x11_apps: final(self).x11_apps, ..*old(self) }),
    {
        let same = crate::text::str_eq(self.x11_apps[idx].display_name.as_str(), name.as_str());
        if same {
            return false;
        }
        let has = self.x11_apps[idx].has_wl_surface;
        self.x11_apps.set(idx, X11App { display_name: name, has_wl_surface: has });
        true
    }
}

impl State {
    /// The title or app id of Wayland toplevel `idx` changed; `true` when the shown name
    /// changed (the menu must be redrawn).
    pub fn sync_app_name(&mut self, idx: usize, name: String) -> (changed: bool)
        requires
            (idx as int) < old(self).running_apps@.len(),
        ensures
            changed == (old(self).running_apps@[idx as int].display_name@ != name@),
            final(self).running_apps@ == (if changed {
                old(self).running_apps@.update(idx as int, RunningApp { display_name: name })
            } else {
                old(self).running_apps@
            }),
            *final(self) == (State { running_apps: final(self).running_apps, ..*old(self) }),
    {
        let same = crate::text::str_eq(self.running_apps[idx].display_name.as_str(), name.as_str());
        if same {
            return false;
        }
        self.running_apps.set(idx, RunningApp { display_name: name });
        true
    }
}

/// After XWayland events are dispatched: a pending X11 focus completes once the window's
/// surface exists. `true`: dispatch input focus now.
pub fn dispatch(state: &mut State) -> (r: bool)
    ensures
        if old(state).x11_focus_pending && old(state).x11_input_wanted
            && (old(state).focused_x11 as int) < old(state).x11_apps@.len()
            && old(state).x11_apps@[old(state).focused_x11 as int].has_wl_surface {
            let s1 = State { x11_focus_pending: false, ..*old(state) };
            r == !s1.spec_wm_ui_blocks_focus() && *final(state) == spec_apply_focus(s1)
        } else {
            !r && *final(state) == *old(state)
        },
{
    if state.x11_focus_pending && state.x11_input_wanted {
        let pending = state.focused_x11;
        let ready = pending < state.x11_apps.len() && state.x11_apps[pending].has_wl_surface;
        if ready {
            state.x11_focus_pending = false;
            return state.apply_focus();
        }
    }
    false
}

} // verus!
