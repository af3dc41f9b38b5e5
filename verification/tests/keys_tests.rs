use kioskwm::emergency::{
    compositor_keyboard_filter, execute, match_combo, match_evdev, CompositorKey, EmergencyAction, EmergencyContext,
    EmergencyEffect, OverlayKey,
};
use kioskwm::i18n::{I18n, Lang};
use kioskwm::keys::{FilterResult, KeyState, Keysym, Modifiers, KEY_DELETE, KEY_ESCAPE, KEY_F1, KEY_LEFT};
use kioskwm::kill_switch::{evdev_event, match_scancode, scan_bytes, update_evdev_mods, EvdevMods, ScancodeMods};
use kioskwm::modifiers::{context_menu_modifier_held, right_alt_held, super_held, ModifierTracker};
use kioskwm::overlay::OverlayControl;
use kioskwm::state::{new_exit_flag, should_exit, State};

fn mods(ctrl: bool, alt: bool, shift: bool, logo: bool) -> Modifiers {
    Modifiers { ctrl, alt, shift, logo }
}

fn key(sym: u32) -> Keysym {
    Keysym { raw_syms: vec![sym], modified_sym: sym }
}

fn state() -> State {
    State::new(1280, 800, I18n::new(Lang::En), false, ModifierTracker::new_arc())
}

#[test]
fn compositor_combos() {
    assert_eq!(match_combo(&mods(true, true, true, false), &key(KEY_DELETE)), Some(EmergencyAction::ForceQuit));
    assert_eq!(match_combo(&mods(true, true, false, false), &key(KEY_DELETE)), Some(EmergencyAction::ToggleOverlay));
    assert_eq!(match_combo(&mods(false, true, false, true), &key(KEY_DELETE)), Some(EmergencyAction::ToggleOverlay));
    assert_eq!(match_combo(&mods(true, true, false, false), &key(KEY_F1 + 2)), Some(EmergencyAction::SwitchVt(3)));
    assert_eq!(match_combo(&mods(true, true, true, false), &key(KEY_F1)), None);
    assert_eq!(match_combo(&mods(true, false, false, false), &key(KEY_DELETE)), None);
}

#[test]
fn evdev_combos() {
    assert_eq!(match_evdev(true, true, true, true, 111), Some(EmergencyAction::ForceQuit));
    assert_eq!(match_evdev(true, true, false, true, 111), Some(EmergencyAction::ToggleOverlay));
    assert_eq!(match_evdev(true, true, false, true, 59), Some(EmergencyAction::SwitchVt(1)));
    assert_eq!(match_evdev(true, true, false, true, 68), Some(EmergencyAction::SwitchVt(10)));
    assert_eq!(match_evdev(true, true, false, true, 87), Some(EmergencyAction::SwitchVt(11)));
    assert_eq!(match_evdev(true, true, false, true, 88), Some(EmergencyAction::SwitchVt(12)));
    assert_eq!(match_evdev(true, true, false, true, 69), None);
    assert_eq!(match_evdev(true, true, false, true, 70), None);
    assert_eq!(match_evdev(true, true, false, false, 111), None);
    assert_eq!(match_evdev(true, false, false, true, 111), None);
}

#[test]
fn evdev_modifier_tracking() {
    let mut m = EvdevMods { ctrl: false, alt: false, shift: false };
    update_evdev_mods(&mut m, 97, true);
    update_evdev_mods(&mut m, 56, true);
    assert_eq!(m, EvdevMods { ctrl: true, alt: true, shift: false });
    assert_eq!(evdev_event(&mut m, 1, 111, 1), Some(EmergencyAction::ToggleOverlay));
    assert_eq!(evdev_event(&mut m, 2, 111, 1), None);
    assert_eq!(evdev_event(&mut m, 1, 0, 1), None);
    assert_eq!(evdev_event(&mut m, 1, 29, 0), None);
    assert!(!m.ctrl);
}

#[test]
fn scancode_stream() {
    let mut m = ScancodeMods { ctrl: false, alt: false, shift: false };
    assert_eq!(match_scancode(0x1D, false, &mut m), None);
    assert_eq!(match_scancode(0x38, false, &mut m), None);
    assert_eq!(match_scancode(0x53, false, &mut m), Some(EmergencyAction::ToggleOverlay));
    assert_eq!(match_scancode(0x3D, false, &mut m), Some(EmergencyAction::SwitchVt(3)));
    assert_eq!(match_scancode(0x57, false, &mut m), Some(EmergencyAction::SwitchVt(11)));
    assert_eq!(match_scancode(0x58, false, &mut m), Some(EmergencyAction::SwitchVt(12)));
    assert_eq!(match_scancode(0x2A, false, &mut m), None);
    assert_eq!(match_scancode(0x53, false, &mut m), Some(EmergencyAction::ForceQuit));
    assert_eq!(match_scancode(0x9D, false, &mut m), None);
    assert!(!m.ctrl);
    let mut ext = false;
    let mut m2 = ScancodeMods { ctrl: false, alt: false, shift: false };
    let acts = scan_bytes(&vec![0x1D, 0x38, 0xE0, 0x53, 0xB8, 0x53], &mut ext, &mut m2);
    assert_eq!(acts, vec![EmergencyAction::ToggleOverlay]);
    assert!(!ext);
    assert!(m2.ctrl && !m2.alt);
}

#[test]
fn hardware_dispatch_sets_flags() {
    let ctx = EmergencyContext::new(new_exit_flag(), OverlayControl::with_loop_wake(true));
    assert_eq!(
        kioskwm::kill_switch::dispatch_hardware(EmergencyAction::ToggleOverlay, &ctx),
        kioskwm::kill_switch::HardwareDispatch::ToggleRequested(true)
    );
    let mut s = state();
    assert_eq!(ctx.overlay.poll(&mut s), Some(kioskwm::overlay::OverlayToggle::Opened));
    assert!(s.overlay_open);
    assert_eq!(
        kioskwm::kill_switch::dispatch_hardware(EmergencyAction::ForceQuit, &ctx),
        kioskwm::kill_switch::HardwareDispatch::ForceQuit
    );
    assert!(should_exit(&ctx.exit_flag));
    assert!(kioskwm::kill_switch::keeps_device(None));
    assert!(kioskwm::kill_switch::keeps_device(Some("120013")));
    assert!(!kioskwm::kill_switch::keeps_device(Some("10")));
    assert!(!kioskwm::kill_switch::keeps_device(Some("1")));
}

#[test]
fn emergency_execute_and_filter() {
    let ctx = EmergencyContext::new(new_exit_flag(), OverlayControl::new());
    let mut s = state();
    let e = execute(EmergencyAction::ToggleOverlay, &ctx, &mut s);
    assert_eq!(e, EmergencyEffect::OverlayToggled { opened: true, wake: false });
    assert!(s.overlay_open);
    // With the panel open every key is swallowed.
    let (f, k) = compositor_keyboard_filter(&mut s, &ctx, &mods(false, false, false, false), &key(KEY_LEFT), KeyState::Pressed);
    assert_eq!((f, k), (FilterResult::Intercept, CompositorKey::Overlay(OverlayKey::SpeedDown)));
    let (f, k) = compositor_keyboard_filter(&mut s, &ctx, &mods(false, false, false, false), &key(KEY_ESCAPE), KeyState::Pressed);
    assert_eq!((f, k), (FilterResult::Intercept, CompositorKey::Overlay(OverlayKey::Closed)));
    assert!(!s.overlay_open);
    let (f, k) = compositor_keyboard_filter(&mut s, &ctx, &mods(false, false, false, false), &key(KEY_ESCAPE), KeyState::Pressed);
    assert_eq!((f, k), (FilterResult::Forward, CompositorKey::Pass));
    let (_, k) = compositor_keyboard_filter(&mut s, &ctx, &mods(true, true, true, false), &key(KEY_DELETE), KeyState::Pressed);
    assert_eq!(k, CompositorKey::Emergency(EmergencyEffect::ForceQuit));
    assert!(should_exit(&ctx.exit_flag));
}

#[test]
fn modifier_sources() {
    let t = ModifierTracker::default();
    assert!(!super_held(false, 0, &t));
    assert!(super_held(true, 0, &t));
    assert!(super_held(false, 1, &t));
    t.set_evdev_super(true);
    assert!(super_held(false, 0, &t));
    assert!(!right_alt_held(0, &t));
    t.set_evdev_right_alt(true);
    assert!(right_alt_held(0, &t));
    assert!(context_menu_modifier_held(false, 0, 0, &t));
    assert!(kioskwm::modifiers::context_menu_modifier_held_from(false, 0, 2, false, false));
    assert!(!kioskwm::modifiers::context_menu_modifier_held_from(false, 0, 0, false, false));
}
