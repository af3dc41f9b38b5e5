//! Running apps (Wayland toplevels and X11 windows): names, unified indexing and focus targets.

use vstd::prelude::*;
use vstd::string::*;

use crate::text::{after_last_dot, last_dot_end, lowercase, to_lowercase};

verus! {

/// A Wayland toplevel as the WM logic sees it: its display name, in map order.
#[derive(Clone, Debug)]
pub struct RunningApp {
    pub display_name: String,
}

/// An X11 window as the WM logic sees it.
#[derive(Clone, Debug)]
pub struct X11App {
    pub display_name: String,
    /// The XWayland `wl_surface` has been associated with the window.
    pub has_wl_surface: bool,
}

/// Apps in menu order: Wayland first, then X11.
#[derive(Clone, Copy, Debug, PartialEq, Eq, Structural)]
pub enum UnifiedApp {
    Wayland(usize),
    X11(usize),
}

/// The app that is shown and receives input.
#[derive(Clone, Copy, Debug, PartialEq, Eq, Structural)]
pub enum ActiveTarget {
    Wayland(usize),
    X11(usize),
}

pub open spec fn spec_menu_label(main_word: Seq<char>, app_name: Seq<char>) -> Seq<char> {
    main_word + " ("@ + app_name + ")"@
}

/// `"{main_word} ({app_name})"`.
pub fn menu_label(main_word: &str, app_name: &str) -> (r: String)
    ensures
        r@ == spec_menu_label(main_word@, app_name@),
{
    let mut s = main_word.to_owned();
    s.append(" (");
    s.append(app_name);
    s.append(")");
    s
}

/// Last dot-separated component of an app id or title, lowercased
/// (`org.kde.Konsole` → `konsole`).
pub open spec fn spec_short_name(raw: Seq<char>) -> Seq<char> {
    lowercase(raw.skip(after_last_dot(raw)))
}

pub fn short_name(raw: &str) -> (r: String)
    ensures
        r@ == spec_short_name(raw@),
{
    let start = last_dot_end(raw);
    proof {
        crate::text::lemma_after_last_dot(raw@);
    }
    let tail = raw.substring_char(start, raw.unicode_len());
    assert(tail@ =~= raw@.skip(after_last_dot(raw@)));
    to_lowercase(tail)
}


/// A toplevel's shown name: its app id's short name, else its title's, else `app`.
pub open spec fn spec_display_name(app_id: Option<Seq<char>>, title: Option<Seq<char>>) -> Seq<char> {
    match app_id {
        Some(a) => spec_short_name(a),
        None => match title {
            Some(t) => spec_short_name(t),
            None => "app"@,
        },
    }
}

pub fn display_name(app_id: Option<&str>, title: Option<&str>) -> (r: String)
    ensures
        r@ == spec_display_name(
            match app_id {
                Some(a) => Some(a@),
                None => None,
            },
            match title {
                Some(t) => Some(t@),
                None => None,
            },
        ),
{
    match app_id {
        Some(a) => short_name(a),
        None => match title {
            Some(t) => short_name(t),
            None => String::from_str("app"),
        },
    }
}

} // verus!

verus! {

use crate::order::{
    filter_below, filter_ne, index_of, missing_upto, no_dups, vec_contains, lemma_filter_below,
    lemma_filter_ne, lemma_missing_upto,
};
use crate::state::State;

/// MRU order completed against `count` apps: entries below `count` in their order,
/// then every missing index ascending.
pub open spec fn synced_mru(mru: Seq<usize>, count: int) -> Seq<usize> {
    filter_below(mru, count) + missing_upto(filter_below(mru, count), count)
}

/// MRU order after using app `idx`: `idx` first, the others in their previous order.
pub open spec fn touched_mru(mru: Seq<usize>, idx: usize) -> Seq<usize> {
    seq![idx] + filter_ne(mru, idx)
}

/// What to do with input after a focus change.
#[derive(Clone, Copy, Debug, PartialEq, Eq, Structural)]
pub enum FocusDispatch {
    /// Keyboard grabbed by an X11 client: re-enter it on this X11 window (if any) and move the pointer there.
    GrabbedX11(Option<usize>),
    /// Keyboard grabbed and focus is not X11-bound: nothing to hand over.
    GrabbedKeep,
    /// Give keyboard and pointer to this X11 window.
    X11(usize),
    /// Give keyboard and pointer to this Wayland toplevel, or clear focus when there is none.
    Wayland(Option<usize>),
}

/// The side effects a focus request asks of the compositor, in order.
#[derive(Clone, Copy, Debug, PartialEq, Eq, Structural)]
pub struct FocusPlan {
    /// The request named an existing app.
    pub accepted: bool,
    /// Configure this previously active Wayland toplevel as inactive.
    pub deactivate_wayland: Option<usize>,
    /// Release keys still pressed in the compositor keyboard.
    pub release_keys: bool,
    /// Leave the X11 window at this index.
    pub leave_x11: Option<usize>,
    /// Leave the Wayland toplevel at this index.
    pub leave_wayland: Option<usize>,
    /// Configure this Wayland toplevel as the active kiosk surface.
    pub configure_wayland: Option<usize>,
    /// Input to hand over right away while the X11 window is still loading.
    pub waiting_input: Option<FocusDispatch>,
    /// `apply_focus` went through: dispatch input focus now.
    pub dispatch_focus: bool,
    /// Re-configure the active surface afterwards.
    pub refresh: bool,
}

pub open spec fn no_plan() -> FocusPlan {
    FocusPlan {
        accepted: false,
        deactivate_wayland: None,
        release_keys: false,
        leave_x11: None,
        leave_wayland: None,
        configure_wayland: None,
        waiting_input: None,
        dispatch_focus: false,
        refresh: false,
    }
}

/// Which app the close action addresses.
#[derive(Clone, Copy, Debug, PartialEq, Eq, Structural)]
pub enum CloseRequest {
    /// Close this app (none when the focused index has no app).
    Close(Option<UnifiedApp>),
    /// No apps at all: quit the compositor.
    Exit,
}

/// The MRU list completed against `count` apps (see `synced_mru`).
pub fn synced_order(mru_vec: &Vec<usize>, count: usize) -> (order: Vec<usize>)
    ensures
        order@ == synced_mru(mru_vec@, count as int),
{
        let ghost mru = mru_vec@;
        let mut order: Vec<usize> = Vec::new();
        let mut i: usize = 0;
        while i < mru_vec.len()
            invariant
                i <= mru_vec@.len(),
                mru_vec@ == mru,
                order@ == filter_below(mru.take(i as int), count as int),
            decreases mru_vec@.len() - i,
        {
            assert(mru.take(i + 1).drop_last() =~= mru.take(i as int));
            if mru_vec[i] < count {
                order.push(mru_vec[i]);
            }
            i = i + 1;
        }
        assert(mru.take(mru.len() as int) =~= mru);
        let ghost filtered = order@;
        let mut k: usize = 0;
        while k < count
            invariant
                k <= count,
                count <= usize::MAX,
                filtered == filter_below(mru, count as int),
                order@ == filtered + missing_upto(filtered, k as int),
            decreases count - k,
        {
            proof {
                lemma_missing_upto(filtered, k as int);
                assert(order@.contains(k) == filtered.contains(k)) by {
                    if order@.contains(k) && !filtered.contains(k) {
                        let t = choose|t: int| 0 <= t < order@.len() && order@[t] == k;
                        assert(order@[t] == missing_upto(filtered, k as int)[t - filtered.len()]);
                    }
                    if filtered.contains(k) {
                        let t = choose|t: int| 0 <= t < filtered.len() && filtered[t] == k;
                        assert(order@[t] == k);
                    }
                }
            }
            if !vec_contains(&order, k) {
                order.push(k);
            }
            k = k + 1;
        }
        order
}

impl State {
    pub open spec fn spec_app_count(&self) -> int {
        (self.running_apps@.len() + self.x11_apps@.len()) as int
    }

    pub open spec fn spec_unified_app(&self, index: int) -> Option<UnifiedApp> {
        let wl = self.running_apps@.len();
        if index < 0 || index >= self.spec_app_count() {
            None
        } else if index < wl {
            Some(UnifiedApp::Wayland(index as usize))
        } else {
            Some(UnifiedApp::X11((index - wl) as usize))
        }
    }

    pub open spec fn spec_active_target(&self) -> Option<ActiveTarget> {
        let wl = self.running_apps@.len();
        let x11 = self.x11_apps@.len();
        if self.focused_is_x11 && self.x11_input_wanted && x11 > 0 {
            Some(ActiveTarget::X11(crate::geom::min_int(self.focused_x11 as int, x11 - 1) as usize))
        } else if self.focused_is_x11 && self.x11_input_wanted && self.x11_foot_refocus_at is Some {
            None
        } else if wl > 0 {
            Some(ActiveTarget::Wayland(crate::geom::min_int(self.focused_app as int, wl - 1) as usize))
        } else if x11 > 0 {
            Some(ActiveTarget::X11(crate::geom::min_int(self.focused_x11 as int, x11 - 1) as usize))
        } else {
            None
        }
    }

    pub open spec fn spec_unified_focus_index(&self) -> int {
        match self.spec_active_target() {
            Some(ActiveTarget::Wayland(i)) => i as int,
            Some(ActiveTarget::X11(i)) => self.running_apps@.len() + i,
            None => 0,
        }
    }

    pub open spec fn spec_wm_ui_blocks_focus(&self) -> bool {
        self.context_menu.open || self.overlay_open || self.alt_tab.open
    }

    pub open spec fn app_name(&self, index: int) -> Seq<char> {
        match self.spec_unified_app(index) {
            Some(UnifiedApp::X11(i)) => self.x11_apps@[i as int].display_name@,
            Some(UnifiedApp::Wayland(i)) => self.running_apps@[i as int].display_name@,
            None => "app"@,
        }
    }

    /// The app that is shown and receives input.
    pub fn active_target(&self) -> (r: Option<ActiveTarget>)
        ensures
            r == self.spec_active_target(),
    {
        if self.focused_is_x11 && self.x11_input_wanted {
            if !self.x11_apps.is_empty() {
                let last = self.x11_apps.len() - 1;
                return Some(ActiveTarget::X11(if self.focused_x11 <= last { self.focused_x11 } else { last }));
            }
            if self.x11_foot_refocus_at.is_some() {
                // The splash closed and the main window has not mapped yet: black screen.
                return None;
            }
        }
        if !self.running_apps.is_empty() {
            let last = self.running_apps.len() - 1;
            return Some(ActiveTarget::Wayland(if self.focused_app <= last { self.focused_app } else { last }));
        }
        if !self.x11_apps.is_empty() {
            let last = self.x11_apps.len() - 1;
            return Some(ActiveTarget::X11(if self.focused_x11 <= last { self.focused_x11 } else { last }));
        }
        None
    }

    pub fn app_count(&self) -> (r: usize)
        requires
            self.spec_app_count() <= usize::MAX,
        ensures
            r == self.spec_app_count(),
    {
        self.running_apps.len() + self.x11_apps.len()
    }

    /// Menu order: Wayland first, then X11.
    pub fn unified_app(&self, index: usize) -> (r: Option<UnifiedApp>)
        requires
            self.spec_app_count() <= usize::MAX,
        ensures
            r == self.spec_unified_app(index as int),
    {
        let wl = self.running_apps.len();
        let total = wl + self.x11_apps.len();
        if index >= total {
            return None;
        }
        if index < wl {
            Some(UnifiedApp::Wayland(index))
        } else {
            Some(UnifiedApp::X11(index - wl))
        }
    }

    pub fn unified_app_name(&self, index: usize) -> (r: &str)
        requires
            self.spec_app_count() <= usize::MAX,
        ensures
            r@ == self.app_name(index as int),
    {
        match self.unified_app(index) {
            Some(UnifiedApp::X11(i)) => self.x11_apps[i].display_name.as_str(),
            Some(UnifiedApp::Wayland(i)) => self.running_apps[i].display_name.as_str(),
            None => "app",
        }
    }

    pub fn unified_focus_index(&self) -> (r: usize)
        requires
            self.spec_app_count() <= usize::MAX,
        ensures
            r == self.spec_unified_focus_index(),
    {
        let wl = self.running_apps.len();
        match self.active_target() {
            Some(ActiveTarget::Wayland(i)) => i,
            Some(ActiveTarget::X11(i)) => wl + i,
            None => 0,
        }
    }

    pub fn wm_ui_blocks_focus(&self) -> (r: bool)
        ensures
            r == self.spec_wm_ui_blocks_focus(),
    {
        self.context_menu.open || self.overlay_open || self.alt_tab.open
    }

    /// Brings the MRU list in line with the current apps: drops stale indices and
    /// appends apps never used yet.
    pub fn sync_app_mru(&mut self)
        requires
            old(self).spec_app_count() <= usize::MAX,
        ensures
            final(self).app_mru@ == synced_mru(old(self).app_mru@, old(self).spec_app_count()),
            *final(self) == (State { app_mru: final(self).app_mru, ..*old(self) }),
    {
        let count = self.app_count();
        let order = synced_order(&self.app_mru, count);
        self.app_mru = order;
    }

    /// Moves app `unified_idx` to the front of the MRU list (ignored when out of range).
    pub fn touch_mru(&mut self, unified_idx: usize)
        requires
            old(self).spec_app_count() <= usize::MAX,
        ensures
            final(self).app_mru@ == if (unified_idx as int) < old(self).spec_app_count() {
                touched_mru(old(self).app_mru@, unified_idx)
            } else {
                old(self).app_mru@
            },
            *final(self) == (State { app_mru: final(self).app_mru, ..*old(self) }),
    {
        if unified_idx >= self.app_count() {
            return;
        }
        let ghost mru = self.app_mru@;
        let mut rest: Vec<usize> = Vec::new();
        rest.push(unified_idx);
        let mut i: usize = 0;
        while i < self.app_mru.len()
            invariant
                i <= self.app_mru@.len(),
                self.app_mru@ == mru,
                rest@ == seq![unified_idx] + filter_ne(mru.take(i as int), unified_idx),
            decreases self.app_mru@.len() - i,
        {
            assert(mru.take(i + 1).drop_last() =~= mru.take(i as int));
            if self.app_mru[i] != unified_idx {
                rest.push(self.app_mru[i]);
            }
            i = i + 1;
        }
        assert(mru.take(mru.len() as int) =~= mru);
        self.app_mru = rest;
    }
}

} // verus!

verus! {

use crate::order::is_perm_of_range;

/// After a sync, the MRU list names every app exactly once (given it had no duplicates).
pub proof fn lemma_synced_mru_is_perm(mru: Seq<usize>, count: int)
    requires
        no_dups(mru),
        0 <= count <= usize::MAX,
    ensures
        is_perm_of_range(synced_mru(mru, count), count),
{
    let f = filter_below(mru, count);
    let m = missing_upto(f, count);
    lemma_filter_below(mru, count);
    lemma_missing_upto(f, count);
    let s = f + m;
    assert forall|i: int, j: int| 0 <= i < s.len() && 0 <= j < s.len() && i != j implies s[i] != s[j] by {
        if i < f.len() && j >= f.len() {
            assert(s[j] == m[j - f.len()]);
            assert(!f.contains(m[j - f.len()]));
            assert(f.contains(s[i]));
        } else if i >= f.len() && j < f.len() {
            assert(s[i] == m[i - f.len()]);
            assert(!f.contains(m[i - f.len()]));
            assert(f.contains(s[j]));
        } else if i >= f.len() && j >= f.len() {
            assert(s[i] == m[i - f.len()] && s[j] == m[j - f.len()]);
        }
    }
    assert forall|i: int| 0 <= i < s.len() implies (s[i] as int) < count by {
        if i >= f.len() {
            assert(s[i] == m[i - f.len()]);
        }
    }
    assert forall|k: int| 0 <= k < count implies #[trigger] s.contains(k as usize) by {
        if f.contains(k as usize) {
            let t = choose|t: int| 0 <= t < f.len() && f[t] == k as usize;
            assert(s[t] == k as usize);
        } else {
            assert(m.contains(k as usize));
            let t = choose|t: int| 0 <= t < m.len() && m[t] == k as usize;
            assert(s[f.len() + t] == k as usize);
        }
    }
}

/// Using an app puts it first and keeps every other entry, each once.
pub proof fn lemma_touched_mru(mru: Seq<usize>, idx: usize)
    requires
        no_dups(mru),
    ensures
        touched_mru(mru, idx)[0] == idx,
        no_dups(touched_mru(mru, idx)),
        forall|x: usize| touched_mru(mru, idx).contains(x) <==> (x == idx || mru.contains(x)),
{
    lemma_filter_ne(mru, idx);
    let r = filter_ne(mru, idx);
    let t = touched_mru(mru, idx);
    assert forall|i: int, j: int| 0 <= i < t.len() && 0 <= j < t.len() && i != j implies t[i] != t[j] by {
        if i == 0 && j > 0 {
            assert(t[j] == r[j - 1]);
            assert(r.contains(r[j - 1]));
        } else if j == 0 && i > 0 {
            assert(t[i] == r[i - 1]);
            assert(r.contains(r[i - 1]));
        } else if i > 0 && j > 0 {
            assert(t[i] == r[i - 1] && t[j] == r[j - 1]);
        }
    }
    assert forall|x: usize| t.contains(x) <==> (x == idx || mru.contains(x)) by {
        if t.contains(x) && x != idx {
            let k = choose|k: int| 0 <= k < t.len() && t[k] == x;
            assert(r[k - 1] == x);
            assert(r.contains(x));
        }
        if x == idx {
            assert(t[0] == x);
        } else if mru.contains(x) {
            assert(r.contains(x));
            let k = choose|k: int| 0 <= k < r.len() && r[k] == x;
            assert(t[k + 1] == x);
        }
    }
}

} // verus!

verus! {

/// State after `apply_focus`: deferred while WM UI is open, else damage and a frame are requested.
pub open spec fn spec_apply_focus(s: State) -> State {
    if s.spec_wm_ui_blocks_focus() {
        State { deferred_focus: true, ..s }
    } else {
        State {
            deferred_focus: false,
            force_full_damage: true,
            render_pending: true,
            render_deadline: None,
            ..s
        }
    }
}

/// Wayland toplevel that receives input when X11 does not: the focused one, if it exists.
pub open spec fn wayland_input_target(s: State) -> FocusDispatch {
    FocusDispatch::Wayland(
        if (s.focused_app as int) < s.running_apps@.len() {
            Some(s.focused_app)
        } else {
            None
        },
    )
}

/// `apply_wayland_input`: optionally drop the X11 intent; popups are dismissed.
pub open spec fn spec_wayland_input_state(s: State, clear_x11_intent: bool) -> State {
    if clear_x11_intent {
        State {
            x11_focus_pending: false,
            x11_input_wanted: false,
            focused_is_x11: false,
            active_popup: false,
            ..s
        }
    } else {
        State { active_popup: false, ..s }
    }
}

/// Where input goes after a focus change, and the state it leaves behind.
pub open spec fn spec_dispatch_input_focus(s: State, keyboard_grabbed: bool) -> (State, FocusDispatch) {
    let s0 = State { active_popup: false, ..s };
    if keyboard_grabbed {
        if s0.focused_is_x11 && s0.x11_input_wanted {
            (
                s0,
                FocusDispatch::GrabbedX11(
                    if (s0.focused_x11 as int) < s0.x11_apps@.len() {
                        Some(s0.focused_x11)
                    } else {
                        None
                    },
                ),
            )
        } else if !s0.focused_is_x11 {
            (spec_wayland_input_state(s0, true), wayland_input_target(s0))
        } else {
            (s0, FocusDispatch::GrabbedKeep)
        }
    } else {
        let s1 = if s0.focused_is_x11 && s0.x11_input_wanted && s0.x11_apps@.len() == 0 {
            State {
                focused_is_x11: false,
                x11_input_wanted: false,
                x11_focus_pending: false,
                x11_foot_refocus_at: None,
                ..s0
            }
        } else {
            s0
        };
        if s1.focused_is_x11 && s1.x11_input_wanted {
            if (s1.focused_x11 as int) >= s1.x11_apps@.len() {
                (State { x11_focus_pending: false, ..s1 }, wayland_input_target(s1))
            } else if !s1.x11_apps@[s1.focused_x11 as int].has_wl_surface {
                // X11 still loading: the terminal keeps answering, intent is kept.
                (State { x11_focus_pending: true, ..s1 }, wayland_input_target(s1))
            } else {
                (State { x11_focus_pending: false, ..s1 }, FocusDispatch::X11(s1.focused_x11))
            }
        } else {
            (spec_wayland_input_state(s1, true), wayland_input_target(s1))
        }
    }
}

#[verifier::opaque]
pub open spec fn spec_focus_app(s: State, index: usize) -> (State, FocusPlan) {
    let wl = s.running_apps@.len();
    if (index as int) >= wl {
        (s, no_plan())
    } else if !s.focused_is_x11 && s.focused_app == index && !s.spec_x11_input_active() {
        (
            spec_apply_focus(s),
            FocusPlan { accepted: true, dispatch_focus: !s.spec_wm_ui_blocks_focus(), ..no_plan() },
        )
    } else {
        spec_move_to_app(s, index)
    }
}

/// Moving input to Wayland toplevel `index` from elsewhere.
#[verifier::opaque]
pub open spec fn spec_move_to_app(s: State, index: usize) -> (State, FocusPlan) {
    let wl = s.running_apps@.len();
    let s1 = State {
        focused_is_x11: false,
        x11_input_wanted: false,
        x11_focus_pending: false,
        x11_autofocus_idx: None,
        focused_app: index,
        active_popup: false,
        ..s
    };
    (
        spec_apply_focus(s1),
        FocusPlan {
            accepted: true,
            deactivate_wayland: if !s.focused_is_x11 && s.focused_app != index && (s.focused_app as int) < wl {
                Some(s.focused_app)
            } else {
                None
            },
            release_keys: s.focused_is_x11,
            leave_x11: if s.focused_is_x11 && (s.focused_x11 as int) < s.x11_apps@.len() {
                Some(s.focused_x11)
            } else {
                None
            },
            configure_wayland: Some(index),
            dispatch_focus: !s.spec_wm_ui_blocks_focus(),
            refresh: true,
            ..no_plan()
        },
    )
}

#[verifier::opaque]
pub open spec fn spec_focus_x11(s: State, index: usize) -> (State, FocusPlan) {
    let x11 = s.x11_apps@.len();
    if (index as int) >= x11 {
        (s, no_plan())
    } else if s.focused_is_x11 && s.focused_x11 == index && s.spec_x11_input_active() {
        (
            spec_apply_focus(s),
            FocusPlan { accepted: true, dispatch_focus: !s.spec_wm_ui_blocks_focus(), ..no_plan() },
        )
    } else {
        spec_move_to_x11(s, index)
    }
}

/// Moving input to X11 window `index` from elsewhere.
#[verifier::opaque]
pub open spec fn spec_move_to_x11(s: State, index: usize) -> (State, FocusPlan) {
    let active = s.spec_x11_input_active();
    let leave_x11 = s.focused_is_x11 && active && s.focused_x11 != index;
    let s1 = State {
        focused_is_x11: true,
        focused_x11: index,
        x11_input_wanted: true,
        x11_foot_refocus_at: None,
        active_popup: false,
        ..s
    };
    let plan = FocusPlan {
        accepted: true,
        release_keys: leave_x11,
        leave_x11: if leave_x11 { Some(s.focused_x11) } else { None },
        leave_wayland: if !leave_x11 && !active && (s.focused_app as int) < s.running_apps@.len() {
            Some(s.focused_app)
        } else {
            None
        },
        ..no_plan()
    };
    if !s.x11_apps@[index as int].has_wl_surface {
        (
            State { x11_focus_pending: true, force_full_damage: true, render_pending: true, render_deadline: None, ..s1 },
            FocusPlan { waiting_input: Some(wayland_input_target(s1)), ..plan },
        )
    } else {
        (
            spec_apply_focus(State { x11_focus_pending: false, ..s1 }),
            FocusPlan { dispatch_focus: !s.spec_wm_ui_blocks_focus(), refresh: true, ..plan },
        )
    }
}

} // verus!

verus! {

/// MRU list after `focus_app(index)`.
pub open spec fn spec_focus_app_mru(s: State, index: usize) -> Seq<usize> {
    if (index as int) >= s.running_apps@.len() || (!s.focused_is_x11 && s.focused_app == index
        && !s.spec_x11_input_active()) {
        s.app_mru@
    } else {
        touched_mru(s.app_mru@, index)
    }
}

/// Unified (menu) index of X11 window `index`.
pub open spec fn x11_unified(s: State, index: usize) -> usize {
    (s.running_apps@.len() + index) as usize
}

/// MRU list after `focus_x11(index)`.
pub open spec fn spec_focus_x11_mru(s: State, index: usize) -> Seq<usize> {
    if (index as int) >= s.x11_apps@.len() || (s.focused_is_x11 && s.focused_x11 == index
        && s.spec_x11_input_active()) || !s.x11_apps@[index as int].has_wl_surface {
        s.app_mru@
    } else {
        touched_mru(s.app_mru@, x11_unified(s, index))
    }
}

impl State {
    /// Focus takes effect now, or is deferred while a WM menu/panel is open.
    /// `true`: hand input focus over now (`dispatch_input_focus`).
    pub fn apply_focus(&mut self) -> (r: bool)
        ensures
            r == !old(self).spec_wm_ui_blocks_focus(),
            *final(self) == spec_apply_focus(*old(self)),
    {
        if self.wm_ui_blocks_focus() {
            self.deferred_focus = true;
            return false;
        }
        self.deferred_focus = false;
        self.note_full_damage();
        self.request_render();
        true
    }

    /// Drops the client popup grab (the compositor ungrabs the pointer).
    pub fn dismiss_popup_grab(&mut self)
        ensures
            *final(self) == (State { active_popup: false, ..*old(self) }),
    {
        self.active_popup = false;
    }

    fn apply_wayland_input(&mut self, clear_x11_intent: bool) -> (r: FocusDispatch)
        ensures
            *final(self) == spec_wayland_input_state(*old(self), clear_x11_intent),
            r == wayland_input_target(*old(self)),
    {
        if clear_x11_intent {
            self.x11_focus_pending = false;
            self.x11_input_wanted = false;
            self.focused_is_x11 = false;
        }
        self.dismiss_popup_grab();
        if self.focused_app < self.running_apps.len() {
            FocusDispatch::Wayland(Some(self.focused_app))
        } else {
            FocusDispatch::Wayland(None)
        }
    }

    /// Decides who gets keyboard and pointer now. `keyboard_grabbed`: an X11 client holds a keyboard grab.
    pub fn dispatch_input_focus(&mut self, keyboard_grabbed: bool) -> (r: FocusDispatch)
        ensures
            (*final(self), r) == spec_dispatch_input_focus(*old(self), keyboard_grabbed),
    {
        self.dismiss_popup_grab();
        if keyboard_grabbed {
            if self.focused_is_x11 && self.x11_input_wanted {
                if self.focused_x11 < self.x11_apps.len() {
                    return FocusDispatch::GrabbedX11(Some(self.focused_x11));
                }
                return FocusDispatch::GrabbedX11(None);
            } else if !self.focused_is_x11 {
                return self.apply_wayland_input(true);
            }
            return FocusDispatch::GrabbedKeep;
        }
        if self.focused_is_x11 && self.x11_input_wanted && self.x11_apps.is_empty() {
            self.focused_is_x11 = false;
            self.x11_input_wanted = false;
            self.x11_focus_pending = false;
            self.x11_foot_refocus_at = None;
        }
        if self.focused_is_x11 && self.x11_input_wanted {
            if self.focused_x11 >= self.x11_apps.len() {
                self.x11_focus_pending = false;
                return self.apply_wayland_input(false);
            }
            if !self.x11_apps[self.focused_x11].has_wl_surface {
                self.x11_focus_pending = true;
                return self.apply_wayland_input(false);
            }
            self.x11_focus_pending = false;
            return FocusDispatch::X11(self.focused_x11);
        }
        self.apply_wayland_input(true)
    }

    fn idle_plan() -> (r: FocusPlan)
        ensures
            r == no_plan(),
    {
        FocusPlan {
            accepted: false,
            deactivate_wayland: None,
            release_keys: false,
            leave_x11: None,
            leave_wayland: None,
            configure_wayland: None,
            waiting_input: None,
            dispatch_focus: false,
            refresh: false,
        }
    }

    /// Focuses Wayland toplevel `index`.
    pub fn focus_app(&mut self, index: usize) -> (r: FocusPlan)
        requires
            old(self).spec_app_count() <= usize::MAX,
        ensures
            (State { app_mru: old(self).app_mru, ..*final(self) }, r) == spec_focus_app(*old(self), index),
            final(self).app_mru@ == spec_focus_app_mru(*old(self), index),
    {
        proof {
            reveal(spec_focus_app);
        }
        let wl = self.running_apps.len();
        if index >= wl {
            return Self::idle_plan();
        }
        if !self.focused_is_x11 && self.focused_app == index && !self.x11_input_active() {
            let go = self.apply_focus();
            let mut plan = Self::idle_plan();
            plan.accepted = true;
            plan.dispatch_focus = go;
            return plan;
        }
        self.move_to_app(index)
    }

    fn move_to_app(&mut self, index: usize) -> (r: FocusPlan)
        requires
            (index as int) < old(self).running_apps@.len(),
            old(self).spec_app_count() <= usize::MAX,
        ensures
            (State { app_mru: old(self).app_mru, ..*final(self) }, r) == spec_move_to_app(*old(self), index),
            final(self).app_mru@ == touched_mru(old(self).app_mru@, index),
    {
        proof {
            reveal(spec_move_to_app);
        }
        let wl = self.running_apps.len();
        let deactivate_wayland = if !self.focused_is_x11 && self.focused_app != index && self.focused_app < wl {
            Some(self.focused_app)
        } else {
            None
        };
        let release_keys = self.focused_is_x11;
        let leave_x11 = if self.focused_is_x11 && self.focused_x11 < self.x11_apps.len() {
            Some(self.focused_x11)
        } else {
            None
        };
        let go = self.switch_to_app(index);
        FocusPlan {
            accepted: true,
            deactivate_wayland,
            release_keys,
            leave_x11,
            leave_wayland: None,
            configure_wayland: Some(index),
            waiting_input: None,
            dispatch_focus: go,
            refresh: true,
        }
    }

    fn switch_to_app(&mut self, index: usize) -> (go: bool)
        requires
            (index as int) < old(self).running_apps@.len(),
            old(self).spec_app_count() <= usize::MAX,
        ensures
            go == !old(self).spec_wm_ui_blocks_focus(),
            (State { app_mru: old(self).app_mru, ..*final(self) }) == spec_apply_focus(
                (State {
                    focused_is_x11: false,
                    x11_input_wanted: false,
                    x11_focus_pending: false,
                    x11_autofocus_idx: None,
                    focused_app: index,
                    active_popup: false,
                    ..*old(self)
                }),
            ),
            final(self).app_mru@ == touched_mru(old(self).app_mru@, index),
    {
        self.focused_is_x11 = false;
        self.x11_input_wanted = false;
        self.x11_focus_pending = false;
        self.x11_autofocus_idx = None;
        self.focused_app = index;
        self.dismiss_popup_grab();
        // The focused toplevel now heads the MRU list (its unified index is `index`).
        self.touch_mru(index);
        self.apply_focus()
    }

    /// Focuses X11 window `index`; while its surface is not associated yet the
    /// terminal keeps input and focus completes later.
    pub fn focus_x11(&mut self, index: usize) -> (r: FocusPlan)
        requires
            old(self).spec_app_count() <= usize::MAX,
        ensures
            (State { app_mru: old(self).app_mru, ..*final(self) }, r) == spec_focus_x11(*old(self), index),
            final(self).app_mru@ == spec_focus_x11_mru(*old(self), index),
    {
        proof {
            reveal(spec_focus_x11);
        }
        if index >= self.x11_apps.len() {
            return Self::idle_plan();
        }
        if self.focused_is_x11 && self.focused_x11 == index && self.x11_input_active() {
            let go = self.apply_focus();
            let mut plan = Self::idle_plan();
            plan.accepted = true;
            plan.dispatch_focus = go;
            return plan;
        }
        self.move_to_x11(index)
    }

    fn move_to_x11(&mut self, index: usize) -> (r: FocusPlan)
        requires
            (index as int) < old(self).x11_apps@.len(),
            old(self).spec_app_count() <= usize::MAX,
        ensures
            (State { app_mru: old(self).app_mru, ..*final(self) }, r) == spec_move_to_x11(*old(self), index),
            final(self).app_mru@ == (if old(self).x11_apps@[index as int].has_wl_surface {
                touched_mru(old(self).app_mru@, x11_unified(*old(self), index))
            } else {
                old(self).app_mru@
            }),
    {
        proof {
            reveal(spec_move_to_x11);
        }
        let active = self.x11_input_active();
        let leaving_x11 = self.focused_is_x11 && active && self.focused_x11 != index;
        let leave_x11 = if leaving_x11 { Some(self.focused_x11) } else { None };
        let leave_wayland = if !leaving_x11 && !active && self.focused_app < self.running_apps.len() {
            Some(self.focused_app)
        } else {
            None
        };
        let has_surface = self.x11_apps[index].has_wl_surface;
        let ghost s0 = *self;
        if !has_surface {
            let waiting = self.wait_for_x11(index);
            assert(waiting == wayland_input_target((State {
                focused_is_x11: true,
                focused_x11: index,
                x11_input_wanted: true,
                x11_foot_refocus_at: None,
                active_popup: false,
                ..s0
            })));
            return FocusPlan {
                accepted: true,
                deactivate_wayland: None,
                release_keys: leaving_x11,
                leave_x11,
                leave_wayland,
                configure_wayland: None,
                waiting_input: Some(waiting),
                dispatch_focus: false,
                refresh: false,
            };
        }
        let go = self.switch_to_x11(index);
        FocusPlan {
            accepted: true,
            deactivate_wayland: None,
            release_keys: leaving_x11,
            leave_x11,
            leave_wayland,
            configure_wayland: None,
            waiting_input: None,
            dispatch_focus: go,
            refresh: true,
        }
    }

    fn wait_for_x11(&mut self, index: usize) -> (r: FocusDispatch)
        ensures
            *final(self) == (State {
                focused_is_x11: true,
                focused_x11: index,
                x11_input_wanted: true,
                x11_foot_refocus_at: None,
                active_popup: false,
                x11_focus_pending: true,
                force_full_damage: true,
                render_pending: true,
                render_deadline: None,
                ..*old(self)
            }),
            r == wayland_input_target(*old(self)),
    {
        self.focused_is_x11 = true;
        self.focused_x11 = index;
        self.x11_input_wanted = true;
        self.x11_foot_refocus_at = None;
        self.dismiss_popup_grab();
        self.x11_focus_pending = true;
        let waiting = self.apply_wayland_input(false);
        self.note_full_damage();
        self.request_render();
        waiting
    }

    fn switch_to_x11(&mut self, index: usize) -> (go: bool)
        requires
            (index as int) < old(self).x11_apps@.len(),
            old(self).spec_app_count() <= usize::MAX,
        ensures
            go == !old(self).spec_wm_ui_blocks_focus(),
            (State { app_mru: old(self).app_mru, ..*final(self) }) == spec_apply_focus(
                (State {
                    focused_is_x11: true,
                    focused_x11: index,
                    x11_input_wanted: true,
                    x11_foot_refocus_at: None,
                    active_popup: false,
                    x11_focus_pending: false,
                    ..*old(self)
                }),
            ),
            final(self).app_mru@ == touched_mru(old(self).app_mru@, x11_unified(*old(self), index)),
    {
        self.focused_is_x11 = true;
        self.focused_x11 = index;
        self.x11_input_wanted = true;
        self.x11_foot_refocus_at = None;
        self.dismiss_popup_grab();
        self.x11_focus_pending = false;
        // The focused window now heads the MRU list (its unified index is `wl + index`).
        let u = self.running_apps.len() + index;
        self.touch_mru(u);
        self.apply_focus()
    }
}

} // verus!

verus! {

/// What `flush_deferred_focus` asks for.
#[derive(Clone, Copy, Debug, PartialEq, Eq, Structural)]
pub struct DeferredFocus {
    /// Focus this unified index first (an app that mapped while the WM UI was open).
    pub focus: Option<usize>,
    /// Then dispatch input focus.
    pub dispatch: bool,
}

/// The apps of `apps` whose flag is false, in order.
pub open spec fn keep_unflagged(apps: Seq<RunningApp>, flags: Seq<bool>) -> Seq<RunningApp>
    decreases apps.len(),
{
    if apps.len() == 0 {
        seq![]
    } else {
        let r = keep_unflagged(apps.drop_last(), flags);
        if !flags[apps.len() - 1] {
            r.push(apps.last())
        } else {
            r
        }
    }
}

pub proof fn lemma_keep_unflagged_len(apps: Seq<RunningApp>, flags: Seq<bool>)
    ensures
        keep_unflagged(apps, flags).len() <= apps.len(),
    decreases apps.len(),
{
    if apps.len() > 0 {
        lemma_keep_unflagged_len(apps.drop_last(), flags);
    }
}

/// The apps whose flag is false, in order.
fn without_flagged(apps: Vec<RunningApp>, flags: &Vec<bool>) -> (r: Vec<RunningApp>)
    requires
        flags@.len() == apps@.len(),
    ensures
        r@ == keep_unflagged(apps@, flags@),
        r@.len() <= apps@.len(),
{
    let before = apps.len();
    let mut old_apps = apps;
    let ghost all = old_apps@;
    let mut kept: Vec<RunningApp> = Vec::new();
    let mut i: usize = 0;
    while i < before
        invariant
            i <= before,
            before == all.len(),
            flags@.len() == before,
            old_apps@ == all.skip(i as int),
            kept@ == keep_unflagged(all.take(i as int), flags@),
        decreases before - i,
    {
        assert(all.take(i + 1).drop_last() =~= all.take(i as int));
        let app = old_apps.remove(0);
        assert(app == all[i as int]);
        assert(old_apps@ =~= all.skip(i + 1));
        if !flags[i] {
            kept.push(app);
        }
        i = i + 1;
    }
    assert(all.take(before as int) =~= all);
    proof {
        lemma_keep_unflagged_len(all, flags@);
    }
    kept
}

/// `t` and `plan` are what focusing unified app `index` makes of `s` (see `focus_unified`).
pub open spec fn focus_unified_rel(s: State, index: usize, t: State, plan: FocusPlan) -> bool {
    match s.spec_unified_app(index as int) {
        None => t == s && plan == no_plan(),
        Some(UnifiedApp::Wayland(i)) => {
            &&& (State { app_mru: s.app_mru, ..t }, plan) == spec_focus_app(s, i)
            &&& t.app_mru@ == spec_focus_app_mru(s, i)
        },
        Some(UnifiedApp::X11(i)) => {
            &&& (State { app_mru: s.app_mru, ..t }, plan) == spec_focus_x11(s, i)
            &&& t.app_mru@ == spec_focus_x11_mru(s, i)
        },
    }
}

/// Focusing an app never adds or removes apps.
pub proof fn lemma_focus_keeps_apps(s: State, index: usize, t: State, plan: FocusPlan)
    requires
        focus_unified_rel(s, index, t, plan),
    ensures
        t.running_apps == s.running_apps,
        t.x11_apps == s.x11_apps,
        t.output_w == s.output_w,
        t.output_h == s.output_h,
        t.overlay_open == s.overlay_open,
        t.context_menu == s.context_menu,
        t.settings == s.settings,
{
    reveal(spec_focus_app);
    reveal(spec_move_to_app);
    reveal(spec_focus_x11);
    reveal(spec_move_to_x11);
}

/// State after input is restored once the WM UI closed, and the app that mapped
/// meanwhile and is to be focused now.
pub open spec fn spec_resync(s: State) -> (State, Option<usize>) {
    match s.pending_autofocus {
        Some(idx) if !s.spec_wm_ui_blocks_focus() => (
            State { deferred_focus: false, active_popup: false, pending_autofocus: None, ..s },
            Some(idx),
        ),
        _ => (State { deferred_focus: false, active_popup: false, ..s }, None),
    }
}

impl State {
    /// Focuses app `index` in menu order (Wayland first, then X11).
    pub fn focus_unified(&mut self, index: usize) -> (r: FocusPlan)
        requires
            old(self).spec_app_count() <= usize::MAX,
        ensures
            focus_unified_rel(*old(self), index, *final(self), r),
    {
        match self.unified_app(index) {
            None => Self::idle_plan(),
            Some(UnifiedApp::Wayland(i)) => self.focus_app(i),
            Some(UnifiedApp::X11(i)) => self.focus_x11(i),
        }
    }

    /// The app the close action (Alt+F4, KDE's X, the WM menu) addresses.
    pub fn close_focused(&self) -> (r: Option<UnifiedApp>)
        ensures
            r == (if self.focused_is_x11 {
                if (self.focused_x11 as int) < self.x11_apps@.len() {
                    Some(UnifiedApp::X11(self.focused_x11))
                } else {
                    None
                }
            } else if (self.focused_app as int) < self.running_apps@.len() {
                Some(UnifiedApp::Wayland(self.focused_app))
            } else {
                None
            }),
    {
        if self.focused_is_x11 {
            if self.focused_x11 < self.x11_apps.len() {
                return Some(UnifiedApp::X11(self.focused_x11));
            }
            return None;
        }
        if self.focused_app < self.running_apps.len() {
            Some(UnifiedApp::Wayland(self.focused_app))
        } else {
            None
        }
    }

    /// The compositor window's close button: close the focused app, or quit when there is none.
    pub fn handle_close_request(&mut self) -> (r: CloseRequest)
        requires
            old(self).spec_app_count() <= usize::MAX,
        ensures
            old(self).spec_app_count() > 0 ==> *final(self) == (State { active_popup: false, ..*old(self) })
                && r == CloseRequest::Close(old(self).close_focused_spec()),
            old(self).spec_app_count() == 0 ==> *final(self) == *old(self) && r == CloseRequest::Exit,
    {
        if self.app_count() > 0 {
            self.dismiss_popup_grab();
            CloseRequest::Close(self.close_focused())
        } else {
            CloseRequest::Exit
        }
    }

    pub open spec fn close_focused_spec(&self) -> Option<UnifiedApp> {
        if self.focused_is_x11 {
            if (self.focused_x11 as int) < self.x11_apps@.len() {
                Some(UnifiedApp::X11(self.focused_x11))
            } else {
                None
            }
        } else if (self.focused_app as int) < self.running_apps@.len() {
            Some(UnifiedApp::Wayland(self.focused_app))
        } else {
            None
        }
    }

    /// Applies a focus change postponed while the WM UI was open.
    pub fn flush_deferred_focus(&mut self) -> (r: DeferredFocus)
        ensures
            !old(self).deferred_focus ==> *final(self) == *old(self) && r == (DeferredFocus { focus: None, dispatch: false }),
            old(self).deferred_focus && old(self).spec_wm_ui_blocks_focus() ==> *final(self) == (State {
                deferred_focus: false,
                ..*old(self)
            }) && r == (DeferredFocus { focus: None, dispatch: false }),
            old(self).deferred_focus && !old(self).spec_wm_ui_blocks_focus() ==> *final(self) == (State {
                deferred_focus: false,
                pending_autofocus: None,
                ..*old(self)
            }) && r == (DeferredFocus { focus: old(self).pending_autofocus, dispatch: true }),
    {
        if !self.deferred_focus {
            return DeferredFocus { focus: None, dispatch: false };
        }
        self.deferred_focus = false;
        if self.wm_ui_blocks_focus() {
            return DeferredFocus { focus: None, dispatch: false };
        }
        let focus = self.pending_autofocus.take();
        DeferredFocus { focus, dispatch: true }
    }

    /// Restores input after Alt+Tab, the WM menu or the panel. Returns an app that mapped
    /// meanwhile and should be focused now.
    pub fn resync_input_after_overlay(&mut self) -> (r: Option<usize>)
        ensures
            (*final(self), r) == spec_resync(*old(self)),
    {
        self.deferred_focus = false;
        self.dismiss_popup_grab();
        if let Some(idx) = self.pending_autofocus {
            if self.wm_ui_blocks_focus() {
                return None;
            }
            self.pending_autofocus = None;
            return Some(idx);
        }
        None
    }

    /// A new app mapped: focus it now (`true`), or once the WM UI closes.
    pub fn autofocus_new_unified(&mut self, unified_idx: usize) -> (r: bool)
        ensures
            r == !old(self).spec_wm_ui_blocks_focus(),
            r ==> *final(self) == (State { pending_autofocus: None, ..*old(self) }),
            !r ==> *final(self) == (State {
                pending_autofocus: Some(unified_idx),
                deferred_focus: true,
                ..*old(self)
            }),
    {
        if self.wm_ui_blocks_focus() {
            self.pending_autofocus = Some(unified_idx);
            self.deferred_focus = true;
            return false;
        }
        self.pending_autofocus = None;
        true
    }

    /// After an X11 splash unmaps (or Krita closes): once the deadline passes with no X11
    /// window mapped, focus returns to the terminal. `true`: dispatch input focus now.
    pub fn tick_x11_foot_refocus(&mut self, now_ms: u64) -> (r: bool)
        ensures
            match old(self).x11_foot_refocus_at {
                Some(deadline) if now_ms >= deadline => if old(self).x11_apps@.len() > 0 {
                    !r && *final(self) == (State { x11_foot_refocus_at: None, ..*old(self) })
                } else {
                    let wl = old(self).running_apps@.len();
                    let s1 = State {
                        x11_foot_refocus_at: None,
                        focused_is_x11: false,
                        x11_input_wanted: false,
                        x11_focus_pending: false,
                        focused_app: if wl > 0 && old(self).focused_app >= wl {
                            (wl - 1) as usize
                        } else {
                            old(self).focused_app
                        },
                        ..*old(self)
                    };
                    r == !s1.spec_wm_ui_blocks_focus() && *final(self) == spec_apply_focus(s1)
                },
                _ => !r && *final(self) == *old(self),
            },
    {
        let deadline = match self.x11_foot_refocus_at {
            Some(d) => d,
            None => return false,
        };
        if now_ms < deadline {
            return false;
        }
        self.x11_foot_refocus_at = None;
        if !self.x11_apps.is_empty() {
            return false;
        }
        self.focused_is_x11 = false;
        self.x11_input_wanted = false;
        self.x11_focus_pending = false;
        if !self.running_apps.is_empty() {
            let last = self.running_apps.len() - 1;
            if self.focused_app > last {
                self.focused_app = last;
            }
        }
        self.apply_focus()
    }

    /// Drops ghost Wayland toplevels of the XWayland client (they duplicate X11 apps in the menu).
    /// `is_xwayland[i]`: toplevel `i` belongs to XWayland. `None`: nothing removed;
    /// `Some(go)`: apps were removed, and `go` asks for an input-focus dispatch.
    pub fn purge_xwayland_from_running_apps(&mut self, is_xwayland: &Vec<bool>) -> (r: Option<bool>)
        requires
            is_xwayland@.len() == old(self).running_apps@.len(),
        ensures
            ({
                let kept = keep_unflagged(old(self).running_apps@, is_xwayland@);
                if kept.len() == old(self).running_apps@.len() {
                    r is None && final(self).running_apps@ == kept
                        && *final(self) == (State { running_apps: final(self).running_apps, ..*old(self) })
                } else {
                    let s1 = State {
                        running_apps: final(self).running_apps,
                        focused_app: if kept.len() == 0 {
                            0
                        } else if old(self).focused_app >= kept.len() {
                            (kept.len() - 1) as usize
                        } else {
                            old(self).focused_app
                        },
                        ..*old(self)
                    };
                    &&& final(self).running_apps@ == kept
                    &&& if s1.focused_is_x11 {
                        r == Some(false) && *final(self) == s1
                    } else {
                        r == Some(!s1.spec_wm_ui_blocks_focus()) && *final(self) == spec_apply_focus(s1)
                    }
                }
            }),
    {
        let before = self.running_apps.len();
        let mut old_apps: Vec<RunningApp> = Vec::new();
        std::mem::swap(&mut old_apps, &mut self.running_apps);
        let kept = without_flagged(old_apps, is_xwayland);
        self.running_apps = kept;
        if self.running_apps.len() == before {
            return None;
        }
        if self.running_apps.is_empty() {
            self.focused_app = 0;
        } else if self.focused_app >= self.running_apps.len() {
            self.focused_app = self.running_apps.len() - 1;
        }
        if !self.focused_is_x11 {
            return Some(self.apply_focus());
        }
        Some(false)
    }
}

} // verus!
