//! Alt+Tab keyboard handling: open, cycle, confirm and cancel.

use vstd::prelude::*;

use crate::alt_tab::layout::{lemma_switcher_follows_mru, ordered_indices, spec_ordered_indices, switcher_current};
use crate::apps::synced_mru;
use crate::order::{filter_below, is_perm_of_range, lemma_filter_below_all, lemma_missing_none};
use crate::keys::{FilterResult, KeyState, Keysym, Modifiers, KEY_ALT_L, KEY_ALT_R, KEY_ESCAPE, KEY_TAB};
use crate::state::State;

verus! {

/// What a cycling step did.
#[derive(Clone, Copy, Debug, PartialEq, Eq, Structural)]
pub enum AltTabStep {
    /// Fewer than two apps: nothing to switch to.
    Ignored,
    /// The switcher opened (client keyboard must be suspended).
    Opened,
    /// The selection moved.
    Moved,
}

/// What releasing Alt did.
#[derive(Clone, Copy, Debug, PartialEq, Eq, Structural)]
pub enum AltTabConfirm {
    NotOpen,
    /// No apps left: the switcher just closed (input must be restored).
    Closed,
    /// Focus this unified index, then restore input.
    Focus(usize),
}

/// A key event's effect on the switcher.
#[derive(Clone, Copy, Debug, PartialEq, Eq, Structural)]
pub enum AltTabEvent {
    Nothing,
    Step(AltTabStep),
    Confirm(AltTabConfirm),
    /// Escape while open: `true` when the switcher closed (input must be restored).
    Closed(bool),
}

pub open spec fn spec_is_alt(raw_syms: Seq<u32>) -> bool {
    exists|i: int| 0 <= i < raw_syms.len() && (raw_syms[i] == KEY_ALT_L || raw_syms[i] == KEY_ALT_R)
}

fn is_alt(keysym: &Keysym) -> (r: bool)
    ensures
        r == spec_is_alt(keysym.raw_syms@),
{
    let mut i: usize = 0;
    while i < keysym.raw_syms.len()
        invariant
            i <= keysym.raw_syms@.len(),
            forall|j: int| 0 <= j < i ==> keysym.raw_syms@[j] != KEY_ALT_L && keysym.raw_syms@[j] != KEY_ALT_R,
        decreases keysym.raw_syms@.len() - i,
    {
        let s = keysym.raw_syms[i];
        if s == KEY_ALT_L || s == KEY_ALT_R {
            return true;
        }
        i = i + 1;
    }
    false
}

fn is_tab(keysym: &Keysym) -> (r: bool)
    ensures
        r == (keysym.modified_sym == KEY_TAB),
{
    keysym.modified_sym == KEY_TAB
}

/// State after opening the switcher: focus changes are deferred, a full frame is drawn.
pub open spec fn spec_open_overlay(s: State) -> State {
    State {
        alt_tab: crate::alt_tab::AltTabState { open: true, ..s.alt_tab },
        deferred_focus: true,
        force_full_damage: true,
        render_pending: true,
        render_deadline: None,
        ..s
    }
}

fn open_overlay(state: &mut State)
    ensures
        *final(state) == spec_open_overlay(*old(state)),
{
    state.alt_tab.open = true;
    state.deferred_focus = true;
    state.note_full_damage();
    state.request_render();
}

/// Slot after a forward step among `count` apps.
pub open spec fn next_slot(open: bool, slot: int, count: int) -> int {
    if !open {
        1
    } else {
        (slot + 1) % count
    }
}

/// Slot after a backward step among `count` apps.
pub open spec fn prev_slot(open: bool, slot: int, count: int) -> int {
    if !open {
        count - 1
    } else {
        (slot + count - 1) % count
    }
}

#[verifier::opaque]
pub open spec fn spec_cycle(s: State, forward: bool) -> (State, AltTabStep) {
    let count = s.spec_app_count();
    if count <= 1 {
        (s, AltTabStep::Ignored)
    } else {
        let opened = !s.alt_tab.open;
        let s1 = if opened { spec_open_overlay(s) } else { s };
        let slot = if forward {
            next_slot(s.alt_tab.open, s.alt_tab.slot as int, count)
        } else {
            prev_slot(s.alt_tab.open, s.alt_tab.slot as int, count)
        };
        (
            State {
                alt_tab: crate::alt_tab::AltTabState { slot: slot as usize, ..s1.alt_tab },
                render_pending: true,
                render_deadline: None,
                ..s1
            },
            if opened { AltTabStep::Opened } else { AltTabStep::Moved },
        )
    }
}

/// Alt+Tab: opens the switcher on the next app, or moves the selection forward.
pub fn cycle_next(state: &mut State) -> (r: AltTabStep)
    requires
        old(state).spec_app_count() <= usize::MAX,
    ensures
        final(state).app_mru@ == crate::apps::synced_mru(old(state).app_mru@, old(state).spec_app_count()),
        (State { app_mru: old(state).app_mru, ..*final(state) }, r) == spec_cycle(*old(state), true),
{
    cycle(state, true)
}

/// Alt+Shift+Tab: opens the switcher on the last app, or moves the selection back.
pub fn cycle_prev(state: &mut State) -> (r: AltTabStep)
    requires
        old(state).spec_app_count() <= usize::MAX,
    ensures
        final(state).app_mru@ == crate::apps::synced_mru(old(state).app_mru@, old(state).spec_app_count()),
        (State { app_mru: old(state).app_mru, ..*final(state) }, r) == spec_cycle(*old(state), false),
{
    cycle(state, false)
}

fn cycle(state: &mut State, forward: bool) -> (r: AltTabStep)
    requires
        old(state).spec_app_count() <= usize::MAX,
    ensures
        final(state).app_mru@ == crate::apps::synced_mru(old(state).app_mru@, old(state).spec_app_count()),
        (State { app_mru: old(state).app_mru, ..*final(state) }, r) == spec_cycle(*old(state), forward),
{
    let ghost s0 = *state;
    state.sync_app_mru();
    let ghost s1 = *state;
    assert(s1 == (State { app_mru: s1.app_mru, ..s0 }));
    let r = cycle_synced(state, forward);
    proof {
        lemma_cycle_ignores_mru(s0, s1.app_mru, forward);
        assert((*state, r) == spec_cycle(s1, forward));
    }
    r
}

proof fn lemma_cycle_ignores_mru(s: State, m: Vec<usize>, forward: bool)
    ensures
        (State { app_mru: s.app_mru, ..spec_cycle((State { app_mru: m, ..s }), forward).0 }) == spec_cycle(s, forward).0,
        spec_cycle((State { app_mru: m, ..s }), forward).0.app_mru == m,
        spec_cycle((State { app_mru: m, ..s }), forward).1 == spec_cycle(s, forward).1,
{
    reveal(spec_cycle);
}

fn cycle_synced(state: &mut State, forward: bool) -> (r: AltTabStep)
    requires
        old(state).spec_app_count() <= usize::MAX,
    ensures
        (*final(state), r) == spec_cycle(*old(state), forward),
{
    proof {
        reveal(spec_cycle);
    }
    let count = state.app_count();
    if count <= 1 {
        return AltTabStep::Ignored;
    }
    let was_open = state.alt_tab.open;
    let new_slot = step_slot(was_open, state.alt_tab.slot, count, forward);
    if !was_open {
        open_overlay(state);
    }
    let ghost s2 = *state;
    state.alt_tab.slot = new_slot;
    state.request_render();
    assert(*state == (State {
        alt_tab: crate::alt_tab::AltTabState { slot: new_slot, ..s2.alt_tab },
        render_pending: true,
        render_deadline: None,
        ..s2
    }));
    if was_open { AltTabStep::Moved } else { AltTabStep::Opened }
}

/// The selection after one step forward or back among `count > 1` apps.
fn step_slot(open: bool, slot: usize, count: usize, forward: bool) -> (r: usize)
    requires
        count > 1,
    ensures
        forward ==> r as int == next_slot(open, slot as int, count as int),
        !forward ==> r as int == prev_slot(open, slot as int, count as int),
        (r as int) < count,
{
    if !open {
        return if forward { 1 } else { count - 1 };
    }
    let s = slot % count;
    proof {
        lemma_step_mod(slot as int, count as int);
    }
    if forward {
        if s + 1 == count { 0 } else { s + 1 }
    } else {
        if s == 0 { count - 1 } else { s - 1 }
    }
}

proof fn lemma_step_mod(slot: int, count: int)
    requires
        count > 1,
        slot >= 0,
    ensures
        (slot + 1) % count == (if slot % count + 1 == count { 0 } else { slot % count + 1 }),
        (slot + count - 1) % count == (if slot % count == 0 { count - 1 } else { slot % count - 1 }),
{
    let q = slot / count;
    let s = slot % count;
    vstd::arithmetic::div_mod::lemma_fundamental_div_mod(slot, count);
    assert(slot == count * q + s);
    vstd::arithmetic::div_mod::lemma_mod_multiples_vanish(q, s + 1, count);
    assert(slot + 1 == count * q + (s + 1));
    if s + 1 == count {
        vstd::arithmetic::div_mod::lemma_mod_self_0(count);
    } else {
        vstd::arithmetic::div_mod::lemma_small_mod((s + 1) as nat, count as nat);
    }
    if s == 0 {
        vstd::arithmetic::div_mod::lemma_mod_multiples_vanish(q, count - 1, count);
        assert(slot + count - 1 == count * q + (count - 1));
        vstd::arithmetic::div_mod::lemma_small_mod((count - 1) as nat, count as nat);
    } else {
        vstd::arithmetic::div_mod::lemma_mod_multiples_vanish(q + 1, s - 1, count);
        assert(slot + count - 1 == count * (q + 1) + (s - 1)) by (nonlinear_arith)
            requires
                slot == count * q + s,
        ;
        vstd::arithmetic::div_mod::lemma_small_mod((s - 1) as nat, count as nat);
    }
}

/// Releasing Alt picks the selected app.
pub fn confirm(state: &mut State) -> (r: AltTabConfirm)
    requires
        old(state).spec_app_count() <= usize::MAX,
    ensures
        !old(state).alt_tab.open ==> r == AltTabConfirm::NotOpen && *final(state) == *old(state),
        old(state).alt_tab.open ==> ({
            let order = spec_ordered_indices(*old(state));
            let closed = State {
                alt_tab: crate::alt_tab::AltTabState { open: false, slot: 0 },
                render_pending: true,
                render_deadline: None,
                ..*old(state)
            };
            &&& *final(state) == closed
            &&& r == if order.len() == 0 {
                AltTabConfirm::Closed
            } else {
                AltTabConfirm::Focus(order[crate::geom::min_int(old(state).alt_tab.slot as int, order.len() - 1)])
            }
        }),
{
    if !state.alt_tab.open {
        return AltTabConfirm::NotOpen;
    }
    let order = ordered_indices(state);
    let count = order.len();
    if count == 0 {
        close(state);
        return AltTabConfirm::Closed;
    }
    let slot = if state.alt_tab.slot <= count - 1 { state.alt_tab.slot } else { count - 1 };
    let idx = order[slot];
    state.alt_tab.open = false;
    state.alt_tab.slot = 0;
    state.request_render();
    AltTabConfirm::Focus(idx)
}

/// Escape: closes the switcher. `true` when it was open (input must be restored).
pub fn close(state: &mut State) -> (r: bool)
    ensures
        r == old(state).alt_tab.open,
        r ==> *final(state) == (State {
            alt_tab: crate::alt_tab::AltTabState { open: false, slot: 0 },
            render_pending: true,
            render_deadline: None,
            ..*old(state)
        }),
        !r ==> *final(state) == *old(state),
{
    if !state.alt_tab.open {
        return false;
    }
    state.alt_tab.open = false;
    state.alt_tab.slot = 0;
    state.request_render();
    true
}

/// Compositor keyboard filter while Alt+Tab may be active: Alt is always swallowed
/// (its release confirms), Alt+Tab / Alt+Shift+Tab cycle, Escape cancels, and every key
/// is swallowed while the switcher is open.
pub fn keyboard_filter(state: &mut State, modifiers: &Modifiers, keysym: &Keysym, key_state: KeyState)
    -> (r: (FilterResult, AltTabEvent))
    requires
        old(state).spec_app_count() <= usize::MAX,
    ensures
        spec_is_alt(keysym.raw_syms@) ==> r.0 == FilterResult::Intercept,
        spec_is_alt(keysym.raw_syms@) && key_state == KeyState::Pressed ==> r.1 == AltTabEvent::Nothing
            && *final(state) == *old(state),
        !spec_is_alt(keysym.raw_syms@) && key_state == KeyState::Pressed && modifiers.alt
            && keysym.modified_sym == KEY_TAB ==> {
            &&& r.0 == FilterResult::Intercept
            &&& r.1 matches AltTabEvent::Step(step)
            &&& (State { app_mru: old(state).app_mru, ..*final(state) }, step) == spec_cycle(*old(state), !modifiers.shift)
        },
        !spec_is_alt(keysym.raw_syms@) && !(key_state == KeyState::Pressed && modifiers.alt
            && keysym.modified_sym == KEY_TAB) ==> {
            if old(state).alt_tab.open {
                &&& r.0 == FilterResult::Intercept
                &&& if key_state == KeyState::Pressed && keysym.modified_sym == KEY_ESCAPE {
                    r.1 == AltTabEvent::Closed(true) && *final(state) == (State {
                        alt_tab: crate::alt_tab::AltTabState { open: false, slot: 0 },
                        render_pending: true,
                        render_deadline: None,
                        ..*old(state)
                    })
                } else {
                    r.1 == AltTabEvent::Nothing && *final(state) == *old(state)
                }
            } else {
                r == (FilterResult::Forward, AltTabEvent::Nothing) && *final(state) == *old(state)
            }
        },
{
    if is_alt(keysym) {
        if key_state == KeyState::Released {
            let c = confirm(state);
            return (FilterResult::Intercept, AltTabEvent::Confirm(c));
        }
        return (FilterResult::Intercept, AltTabEvent::Nothing);
    }
    if key_state == KeyState::Pressed && modifiers.alt && is_tab(keysym) {
        let step = if modifiers.shift { cycle_prev(state) } else { cycle_next(state) };
        return (FilterResult::Intercept, AltTabEvent::Step(step));
    }
    if state.alt_tab.open {
        if key_state == KeyState::Pressed && keysym.modified_sym == KEY_ESCAPE {
            let closed = close(state);
            return (FilterResult::Intercept, AltTabEvent::Closed(closed));
        }
        return (FilterResult::Intercept, AltTabEvent::Nothing);
    }
    (FilterResult::Forward, AltTabEvent::Nothing)
}

/// Alt+Tab pressed where only this handler sees it (Ctrl and Super must be up):
/// `Some(step)` when the switcher reacted.
pub fn try_open(state: &mut State, modifiers: &Modifiers, keysym: &Keysym, key_state: KeyState)
    -> (r: Option<AltTabStep>)
    requires
        old(state).spec_app_count() <= usize::MAX,
    ensures
        (key_state == KeyState::Pressed && modifiers.alt && !modifiers.ctrl && !modifiers.logo
            && keysym.modified_sym == KEY_TAB) ==> {
            &&& r matches Some(step)
            &&& (State { app_mru: old(state).app_mru, ..*final(state) }, step) == spec_cycle(*old(state), !modifiers.shift)
        },
        !(key_state == KeyState::Pressed && modifiers.alt && !modifiers.ctrl && !modifiers.logo
            && keysym.modified_sym == KEY_TAB) ==> r is None && *final(state) == *old(state),
{
    if key_state != KeyState::Pressed || !modifiers.alt || modifiers.ctrl || modifiers.logo {
        return None;
    }
    if !is_tab(keysym) {
        return None;
    }
    if modifiers.shift {
        Some(cycle_prev(state))
    } else {
        Some(cycle_next(state))
    }
}


/// While the switcher is open over two or more apps, the selection stays below the app
/// count, and a step back undoes a step forward (and the other way round).
pub proof fn lemma_cycle_roundtrip(s: State, forward: bool)
    requires
        s.alt_tab.open,
        1 < s.spec_app_count() <= usize::MAX,
        (s.alt_tab.slot as int) < s.spec_app_count(),
    ensures
        (spec_cycle(s, forward).0.alt_tab.slot as int) < s.spec_app_count(),
        spec_cycle(spec_cycle(s, forward).0, !forward).0 == (State {
            render_pending: true,
            render_deadline: None,
            ..s
        }),
{
    reveal(spec_cycle);
    let n = s.spec_app_count();
    let k = s.alt_tab.slot as int;
    lemma_step_mod(k, n);
    let t = spec_cycle(s, forward).0;
    let j = t.alt_tab.slot as int;
    lemma_step_mod(j, n);
    assert(t.spec_app_count() == n);
    vstd::arithmetic::div_mod::lemma_small_mod(k as nat, n as nat);
    vstd::arithmetic::div_mod::lemma_small_mod(j as nat, n as nat);
    let back = if forward { prev_slot(true, j, n) } else { next_slot(true, j, n) };
    assert(back == k);
    let u = spec_cycle(t, !forward).0;
    assert(u.alt_tab.slot == s.alt_tab.slot);
    assert(u.alt_tab == s.alt_tab);
}

/// Alt+Tab once and release picks the previously used app: from a closed switcher over two
/// or more apps, with the MRU history holding every app once and the focused app first,
/// one forward step (`cycle_next`) then releasing Alt (`confirm`) focuses the second entry
/// of the history.
pub proof fn lemma_alt_tab_once_picks_previous(s: State, t: State, step: AltTabStep, u: State, c: AltTabConfirm)
    requires
        !s.alt_tab.open,
        2 <= s.spec_app_count() <= usize::MAX,
        is_perm_of_range(s.app_mru@, s.spec_app_count()),
        s.app_mru@.len() == s.spec_app_count(),
        s.app_mru@[0] == switcher_current(s),
        // `cycle_next` took `s` to `t`:
        t.app_mru@ == synced_mru(s.app_mru@, s.spec_app_count()),
        (State { app_mru: s.app_mru, ..t }, step) == spec_cycle(s, true),
        // `confirm` took `t` to `u`, answering `c`:
        t.alt_tab.open ==> c == (if spec_ordered_indices(t).len() == 0 {
            AltTabConfirm::Closed
        } else {
            AltTabConfirm::Focus(
                spec_ordered_indices(t)[crate::geom::min_int(t.alt_tab.slot as int, spec_ordered_indices(t).len() - 1)],
            )
        }),
    ensures
        step == AltTabStep::Opened,
        c == AltTabConfirm::Focus(s.app_mru@[1]),
{
    reveal(spec_cycle);
    let n = s.spec_app_count();
    lemma_filter_below_all(s.app_mru@, n);
    lemma_missing_none(filter_below(s.app_mru@, n), n);
    assert(synced_mru(s.app_mru@, n) =~= s.app_mru@);
    assert(t.app_mru@ == s.app_mru@);
    assert(t.alt_tab.open && t.alt_tab.slot == 1);
    assert(t.spec_app_count() == n);
    assert(t.spec_active_target() == s.spec_active_target());
    assert(switcher_current(t) == switcher_current(s));
    lemma_switcher_follows_mru(t, 0);
    assert(spec_ordered_indices(t)[1] == t.app_mru@[(0 + 1int) % n]);
    assert((0 + 1int) % n == 1) by (nonlinear_arith)
        requires
            2 <= n,
    ;
}

} // verus!
