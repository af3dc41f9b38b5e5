use kioskwm::frame::frame_layers;
use kioskwm::context_menu::control::ContextMenuControl;
use kioskwm::hardware_bridge::HardwareBridge;
use kioskwm::i18n::{I18n, Lang};
use kioskwm::modifiers::ModifierTracker;
use kioskwm::parent_shortcuts::{log_workaround, KDE_NOTICE, NESTED_NOTICE};
use kioskwm::perf::{report_due, Counters};
use kioskwm::state::State;

#[test]
fn menu_requests_travel_once() {
    let c = ContextMenuControl::with_loop_wake(true);
    assert_eq!(c.poll(), None);
    assert!(c.request_open(10.5f64.to_bits(), 20.0f64.to_bits()));
    assert_eq!(c.poll(), Some((10.5f64.to_bits(), 20.0f64.to_bits())));
    assert_eq!(c.poll(), None);
    assert!(!ContextMenuControl::new().request_open(0, 0));
}

#[test]
fn pointer_bridge() {
    let b = HardwareBridge::new_arc();
    assert_eq!(b.pointer_bits(), (0, 0));
    b.set_pointer_bits(3, 4);
    assert_eq!(b.pointer_bits(), (3, 4));
}

#[test]
fn perf_counts() {
    let mut c = Counters::new();
    c.record_frame_rendered();
    c.record_frame_skipped();
    c.record_frame_skipped();
    c.record_pointer_move();
    assert_eq!(c.take(), (1, 2, 1));
    assert_eq!(c.take(), (0, 0, 0));
    c.frames_skipped = u64::MAX;
    c.record_frame_skipped();
    assert_eq!(c.take(), (0, 0, 0));
    assert!(report_due(1000));
    assert!(!report_due(999));
}

#[test]
fn workaround_notice() {
    assert_eq!(log_workaround(false, true), None);
    assert_eq!(log_workaround(true, true), Some(KDE_NOTICE));
    assert_eq!(log_workaround(true, false), Some(NESTED_NOTICE));
}

#[test]
fn console_backdrop_shows_only_without_apps() {
    let mut s = State::new(800, 600, I18n::new(Lang::En), true, ModifierTracker::new_arc());
    assert!(kioskwm::console_backdrop::wants(&s));
    s.overlay_open = true;
    assert!(!kioskwm::console_backdrop::wants(&s));
    s.overlay_open = false;
    s.new_toplevel("foot".to_string());
    assert!(!kioskwm::console_backdrop::wants(&s));
}

#[test]
fn frame_layer_choice() {
    let mut s = State::new(800, 600, I18n::new(Lang::En), true, ModifierTracker::new_arc());
    let l = frame_layers(&s, true, true);
    assert!(l.apps && l.console && l.cursor);
    assert!(!l.scrim && !l.panel && !l.menu && !l.switcher);
    s.overlay_open = true;
    let l = frame_layers(&s, true, false);
    assert!(!l.apps && !l.console && l.scrim && l.panel && !l.cursor);
    s.overlay_open = false;
    s.alt_tab.open = true;
    let l = frame_layers(&s, false, true);
    assert!(!l.apps && l.switcher && !l.cursor);
}
