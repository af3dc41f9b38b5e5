use kioskwm::alt_tab::input::{close, cycle_next, cycle_prev, keyboard_filter, AltTabConfirm, AltTabEvent, AltTabStep};
use kioskwm::alt_tab::layout::ordered_indices;
use kioskwm::context_menu::input as menu;
use kioskwm::context_menu::layout::{hit_test, Hit};
use kioskwm::i18n::{I18n, Lang};
use kioskwm::input::{handle_button, handle_motion, ButtonOutcome, MotionOutcome, BTN_LEFT, BTN_RIGHT};
use kioskwm::keys::{FilterResult, KeyState, Keysym, Modifiers, KEY_ESCAPE, KEY_RETURN, KEY_TAB};
use kioskwm::modifiers::ModifierTracker;
use kioskwm::overlay::{toggle_overlay, OverlayToggle};
use kioskwm::settings::input as panel;
use kioskwm::settings::layout::{ConfirmAction, Screen};
use kioskwm::state::State;

fn session(apps: &[&str]) -> State {
    let mut s = State::new(1280, 800, I18n::new(Lang::En), false, ModifierTracker::new_arc());
    for a in apps {
        s.new_toplevel(a.to_string());
    }
    s
}

fn key(sym: u32) -> Keysym {
    Keysym { raw_syms: vec![sym], modified_sym: sym }
}

#[test]
fn alt_tab_cycles_and_undoes() {
    let mut s = session(&["a", "b", "c"]);
    assert_eq!(ordered_indices(&s), vec![0, 1, 2]);
    assert_eq!(cycle_next(&mut s), AltTabStep::Opened);
    assert!(s.alt_tab.open);
    assert_eq!(s.alt_tab.slot, 1);
    assert_eq!(cycle_next(&mut s), AltTabStep::Moved);
    assert_eq!(s.alt_tab.slot, 2);
    assert_eq!(cycle_next(&mut s), AltTabStep::Moved);
    assert_eq!(s.alt_tab.slot, 0);
    cycle_prev(&mut s);
    assert_eq!(s.alt_tab.slot, 2);
    cycle_next(&mut s);
    assert_eq!(s.alt_tab.slot, 0);
    assert!(close(&mut s));
    assert!(!s.alt_tab.open);
    assert!(!close(&mut s));
}

#[test]
fn alt_tab_release_focuses_selection() {
    let mut s = session(&["a", "b"]);
    let alt = Modifiers { ctrl: false, alt: true, shift: false, logo: false };
    let (f, e) = keyboard_filter(&mut s, &alt, &key(KEY_TAB), KeyState::Pressed);
    assert_eq!(f, FilterResult::Intercept);
    assert_eq!(e, AltTabEvent::Step(AltTabStep::Opened));
    let alt_key = Keysym { raw_syms: vec![kioskwm::keys::KEY_ALT_L], modified_sym: kioskwm::keys::KEY_ALT_L };
    let (_, e) = keyboard_filter(&mut s, &alt, &alt_key, KeyState::Released);
    assert_eq!(e, AltTabEvent::Confirm(AltTabConfirm::Focus(1)));
    assert!(!s.alt_tab.open);
    // A single app: nothing to switch to.
    let mut one = session(&["a"]);
    assert_eq!(cycle_next(&mut one), AltTabStep::Ignored);
}

#[test]
fn context_menu_open_hover_click() {
    let mut s = session(&["a", "b"]);
    menu::open_at_logical(&mut s, 100, 100);
    assert!(s.context_menu.open);
    assert_eq!((s.context_menu.origin_x, s.context_menu.origin_y), (100, 100));
    assert_eq!(s.context_menu.hover, None);
    // Row of app 1: y from 100 + 4 + 28 + 32.
    assert_eq!(hit_test(&s, 100, 100, 150, 170), Hit::App(1));
    assert!(menu::handle_pointer_motion(&mut s, 150, 170));
    assert_eq!(s.context_menu.hover, Some(Hit::App(1)));
    assert!(!menu::handle_pointer_motion(&mut s, 151, 171));
    let r = menu::handle_pointer_button(&mut s, 150, 170, true);
    assert!(matches!(r, menu::MenuClick::Focus(_, menu::MenuClose::Closed(None))));
    assert!(!s.context_menu.open);
    assert_eq!(s.focused_app, 1);
}

#[test]
fn context_menu_settings_and_escape() {
    let mut s = session(&["a"]);
    menu::open_at_logical(&mut s, 0, 0);
    // Settings row: after the close row (y 4 + 28 + 32 + 1 + 33).
    assert_eq!(hit_test(&s, 0, 0, 50, 100), Hit::OpenSettings);
    let r = menu::handle_pointer_button(&mut s, 50, 100, true);
    assert!(matches!(r, menu::MenuClick::OpenSettings(_)));
    assert!(s.overlay_open);
    assert_eq!(s.settings.screen, Screen::Main);
    let mut s = session(&["a"]);
    menu::open_at_logical(&mut s, 0, 0);
    let (_, c) = menu::keyboard_filter(&mut s, &key(KEY_ESCAPE), KeyState::Pressed);
    assert_eq!(c, menu::MenuClose::Closed(None));
    assert!(!s.context_menu.open);
    assert_eq!(menu::close(&mut s), menu::MenuClose::NotOpen);
}

#[test]
fn overlay_toggles_twice() {
    let mut s = session(&["a"]);
    assert_eq!(toggle_overlay(&mut s), OverlayToggle::Opened);
    assert!(s.overlay_open);
    assert_eq!(toggle_overlay(&mut s), OverlayToggle::Closed(None));
    assert!(!s.overlay_open);
}

#[test]
fn panel_clicks_and_keys() {
    let mut s = session(&["a"]);
    toggle_overlay(&mut s);
    // Panel at (420, 160) on 1280 x 800: the mouse tile at local (30, 90).
    assert_eq!(panel::handle_pointer_button(&mut s, 450, 250, true), panel::PanelClick::Redraw);
    assert_eq!(s.settings.screen, Screen::Mouse);
    assert_eq!(panel::handle_pointer_button(&mut s, 420 + 200, 160 + 190, true), panel::PanelClick::Slider(200));
    assert!(s.settings.slider_drag);
    panel::handle_pointer_release(&mut s);
    assert!(!s.settings.slider_drag);
    let (_, k) = panel::keyboard_filter(&mut s, &key(kioskwm::keys::KEY_RIGHT), KeyState::Pressed);
    assert_eq!(k, panel::PanelKey::Speed(panel::SpeedStep::Faster));
    let (_, k) = panel::keyboard_filter(&mut s, &key(KEY_ESCAPE), KeyState::Pressed);
    assert_eq!(k, panel::PanelKey::Redraw);
    assert_eq!(s.settings.screen, Screen::Main);
    // Shut down asks for confirmation; Enter confirms.
    assert_eq!(panel::handle_pointer_button(&mut s, 420 + 160, 160 + 440, true), panel::PanelClick::Redraw);
    assert_eq!(s.settings.confirm, Some(ConfirmAction::Shutdown));
    let (_, k) = panel::keyboard_filter(&mut s, &key(KEY_RETURN), KeyState::Pressed);
    assert_eq!(k, panel::PanelKey::Confirmed(ConfirmAction::Shutdown));
    assert_eq!(s.settings.confirm, None);
    let (_, k) = panel::keyboard_filter(&mut s, &key(KEY_ESCAPE), KeyState::Pressed);
    assert_eq!(k, panel::PanelKey::Closed);
    assert!(!s.overlay_open);
    assert_eq!(panel::speed_step(kioskwm::keys::KEY_MINUS), Some(panel::SpeedStep::Slower));
    assert_eq!(panel::speed_step(0x61), None);
}

#[test]
fn input_routing() {
    let mut s = session(&["a", "b"]);
    s.take_render_pending(0);
    // A right click with the menu modifier opens the menu.
    assert_eq!(handle_button(&mut s, 10, 10, BTN_RIGHT, true, true), ButtonOutcome::MenuOpened);
    assert!(s.context_menu.open);
    // Other buttons are dropped while it is open.
    assert_eq!(handle_button(&mut s, 10, 10, BTN_RIGHT, true, false), ButtonOutcome::Menu(None));
    assert!(matches!(handle_motion(&mut s, 500, 500, 1000), MotionOutcome::Menu(_)));
    assert!(matches!(handle_button(&mut s, 500, 500, BTN_LEFT, true, false), ButtonOutcome::Menu(Some(_))));
    assert!(!s.context_menu.open);
    assert_eq!(handle_button(&mut s, 5, 5, BTN_LEFT, true, false), ButtonOutcome::Client { refocus: None });
    s.take_render_pending(u64::MAX);
    assert_eq!(handle_motion(&mut s, 5, 6, 1000), MotionOutcome::Client);
    assert_eq!(s.render_deadline, Some(1008));
    s.alt_tab.open = true;
    assert_eq!(handle_motion(&mut s, 5, 7, 2000), MotionOutcome::Blocked);
    assert!(!kioskwm::input::axis_event(&mut s));
    s.alt_tab.open = false;
    assert!(kioskwm::input::axis_event(&mut s));
    assert!(kioskwm::input::motion_uses_speed(&s));
}
