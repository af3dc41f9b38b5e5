//! Super/Meta and Right-Alt tracking: the compositor keyboard, its own key counts, and the
//! evdev reader thread (which sees keys a nested session may swallow).

use std::sync::atomic::{AtomicBool, Ordering};
use std::sync::Arc;

use vstd::prelude::*;

verus! {

/// Modifier state seen by the evdev reader thread, shared with the main loop.
///
/// The flags are written by another thread: a read gives whatever was stored last, so no
/// contract here claims a value for it.
pub struct ModifierTracker {
    evdev_super: AtomicBool,
    evdev_right_alt: AtomicBool,
}

impl Default for ModifierTracker {
    fn default() -> Self {
        ModifierTracker { evdev_super: AtomicBool::new(false), evdev_right_alt: AtomicBool::new(false) }
    }
}

impl ModifierTracker {
    pub fn new_arc() -> Arc<Self> {
        Arc::new(Self::default())
    }

    pub fn set_evdev_super(&self, held: bool) {
        self.evdev_super.store(held, Ordering::Relaxed);
    }

    pub fn evdev_super(&self) -> bool {
        self.evdev_super.load(Ordering::Relaxed)
    }

    pub fn set_evdev_right_alt(&self, held: bool) {
        self.evdev_right_alt.store(held, Ordering::Relaxed);
    }

    pub fn evdev_right_alt(&self) -> bool {
        self.evdev_right_alt.load(Ordering::Relaxed)
    }
}

pub open spec fn spec_super_held(keyboard_logo: bool, local_super_keys: u8, evdev_super: bool) -> bool {
    keyboard_logo || local_super_keys > 0 || evdev_super
}

pub open spec fn spec_right_alt_held(local_right_alt_keys: u8, evdev_right_alt: bool) -> bool {
    local_right_alt_keys > 0 || evdev_right_alt
}

/// Super is held by any of the three sources.
pub fn super_held_from(keyboard_logo: bool, local_super_keys: u8, evdev_super: bool) -> (r: bool)
    ensures
        r == spec_super_held(keyboard_logo, local_super_keys, evdev_super),
{
    keyboard_logo || local_super_keys > 0 || evdev_super
}

/// Right Alt is held by the compositor keyboard's count or by evdev.
pub fn right_alt_held_from(local_right_alt_keys: u8, evdev_right_alt: bool) -> (r: bool)
    ensures
        r == spec_right_alt_held(local_right_alt_keys, evdev_right_alt),
{
    local_right_alt_keys > 0 || evdev_right_alt
}

/// The WM menu modifier (Super or Right Alt) is held.
pub fn context_menu_modifier_held_from(
    keyboard_logo: bool,
    local_super_keys: u8,
    local_right_alt_keys: u8,
    evdev_super: bool,
    evdev_right_alt: bool,
) -> (r: bool)
    ensures
        r == (spec_super_held(keyboard_logo, local_super_keys, evdev_super) || spec_right_alt_held(
            local_right_alt_keys,
            evdev_right_alt,
        )),
{
    super_held_from(keyboard_logo, local_super_keys, evdev_super) || right_alt_held_from(
        local_right_alt_keys,
        evdev_right_alt,
    )
}

/// Super is held: the result is `super_held_from` on the tracker's current evdev flag,
/// which another thread may change at any time, so only the local sources are promised.
pub fn super_held(keyboard_logo: bool, local_super_keys: u8, tracker: &ModifierTracker) -> (r: bool)
    ensures
        spec_super_held(keyboard_logo, local_super_keys, false) ==> r,
{
    let e = tracker.evdev_super();
    super_held_from(keyboard_logo, local_super_keys, e)
}

/// Right Alt is held (see `super_held` on the tracker read).
pub fn right_alt_held(local_right_alt_keys: u8, tracker: &ModifierTracker) -> (r: bool)
    ensures
        spec_right_alt_held(local_right_alt_keys, false) ==> r,
{
    let e = tracker.evdev_right_alt();
    right_alt_held_from(local_right_alt_keys, e)
}

/// Super or Right Alt is held (see `super_held` on the tracker reads).
pub fn context_menu_modifier_held(
    keyboard_logo: bool,
    local_super_keys: u8,
    local_right_alt_keys: u8,
    tracker: &ModifierTracker,
) -> (r: bool)
    ensures
        spec_super_held(keyboard_logo, local_super_keys, false) || spec_right_alt_held(
            local_right_alt_keys,
            false,
        ) ==> r,
{
    let es = tracker.evdev_super();
    let ea = tracker.evdev_right_alt();
    context_menu_modifier_held_from(keyboard_logo, local_super_keys, local_right_alt_keys, es, ea)
}

} // verus!
