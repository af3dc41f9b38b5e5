use kioskwm::i18n::{I18n, Lang};
use kioskwm::modifiers::ModifierTracker;
use kioskwm::state::State;

fn session(apps: &[&str]) -> State {
    let mut s = State::new(1280, 800, I18n::new(Lang::En), false, ModifierTracker::new_arc());
    for a in apps {
        s.new_toplevel(a.to_string());
    }
    s
}

#[test]
fn new_state_schedules_first_frame() {
    let mut s = session(&[]);
    assert_eq!(s.app_count(), 0);
    assert!(s.render_pending);
    assert!(s.wants_full_damage());
    assert!(s.take_render_pending(0));
    assert!(!s.render_pending);
    assert!(!s.take_render_pending(5));
}

#[test]
fn debounced_render_waits_for_deadline() {
    let mut s = session(&[]);
    s.take_render_pending(0);
    s.request_render_debounced(100, 16);
    assert!(!s.take_render_pending(110));
    assert!(s.take_render_pending(116));
    // An earlier deadline is kept.
    s.request_render_debounced(200, 8);
    s.request_render_debounced(201, 50);
    assert_eq!(s.render_deadline, Some(208));
    // A plain request makes the frame due at once.
    s.request_render();
    assert!(s.take_render_pending(0));
}

#[test]
fn first_toplevel_is_focused() {
    let mut s = session(&[]);
    let r = s.new_toplevel("foot".to_string());
    assert!(r.first);
    assert!(r.dispatch_focus);
    let r2 = s.new_toplevel("krita".to_string());
    assert!(!r2.first);
    assert_eq!(s.app_count(), 2);
    assert_eq!(s.unified_focus_index(), 0);
    assert_eq!(s.unified_app_name(1), "krita");
    assert_eq!(s.app_mru, vec![0, 1]);
}

#[test]
fn focus_app_updates_mru() {
    let mut s = session(&["a", "b", "c"]);
    let plan = s.focus_unified(2);
    assert!(plan.accepted);
    assert_eq!(plan.configure_wayland, Some(2));
    assert_eq!(plan.deactivate_wayland, Some(0));
    assert_eq!(s.focused_app, 2);
    assert_eq!(s.app_mru[0], 2);
    let none = s.focus_unified(7);
    assert!(!none.accepted);
}

#[test]
fn destroying_last_app_exits() {
    let mut s = session(&["a"]);
    assert_eq!(s.toplevel_destroyed(0), kioskwm::state::Destroyed::Exit);
}

#[test]
fn destroying_focused_app_moves_focus() {
    let mut s = session(&["a", "b", "c"]);
    s.focus_unified(2);
    let r = s.toplevel_destroyed(2);
    assert_eq!(r, kioskwm::state::Destroyed::Refocus(true));
    assert_eq!(s.focused_app, 1);
}

#[test]
fn pointer_flush_is_blocked_by_overlays() {
    let mut s = session(&["a"]);
    s.mark_pointer_moved(42);
    assert_eq!(s.flush_pointer_to_client(), Some(42));
    assert_eq!(s.flush_pointer_to_client(), None);
    s.overlay_open = true;
    s.mark_pointer_moved(43);
    assert_eq!(s.flush_pointer_to_client(), None);
}

#[test]
fn dispatch_rounds_follow_ui() {
    let mut s = session(&["a"]);
    assert_eq!(s.wayland_dispatch_rounds(), 1);
    assert_eq!(s.wayland_post_frame_rounds(), 2);
    s.active_popup = true;
    assert_eq!(s.wayland_dispatch_rounds(), 10);
    s.active_popup = false;
    s.alt_tab.open = true;
    assert_eq!(s.wayland_dispatch_rounds(), 4);
    s.overlay_open = true;
    assert_eq!(s.wayland_dispatch_rounds(), 1);
}

#[test]
fn x11_window_lifecycle() {
    let mut s = session(&["foot"]);
    assert!(s.map_window_request("krita".to_string(), false));
    assert_eq!(s.app_count(), 2);
    // Autofocus on first map.
    let r = s.map_window_notify(Some(0));
    assert!(matches!(r, kioskwm::x11::MapNotify::Focus(_)));
    assert!(s.focused_is_x11);
    assert!(s.x11_focus_pending);
    // The surface shows up: focus completes.
    assert!(s.surface_associated(0));
    assert!(s.x11_input_active());
    // Closing the window goes back to the terminal.
    assert!(s.unmapped_window(Some(0)));
    assert!(!s.focused_is_x11);
}

#[test]
fn wm_ui_defers_autofocus() {
    let mut s = session(&["a"]);
    s.context_menu.open = true;
    assert!(!s.autofocus_new_unified(1));
    assert_eq!(s.pending_autofocus, Some(1));
    s.context_menu.open = false;
    assert_eq!(s.resync_input_after_overlay(), Some(1));
}

#[test]
fn exit_flag_roundtrip() {
    let f = kioskwm::state::new_exit_flag();
    assert!(!kioskwm::state::should_exit(&f));
    kioskwm::state::request_exit(&f);
    assert!(kioskwm::state::should_exit(&f));
}

#[test]
fn app_names_and_labels() {
    assert_eq!(kioskwm::apps::short_name("org.kde.Konsole"), "konsole");
    assert_eq!(kioskwm::apps::short_name("Foot"), "foot");
    assert_eq!(kioskwm::apps::display_name(Some("org.kde.Krita"), Some("Krita")), "krita");
    assert_eq!(kioskwm::apps::display_name(None, Some("My.Title")), "title");
    assert_eq!(kioskwm::apps::display_name(None, None), "app");
    assert_eq!(kioskwm::apps::menu_label("Main", "foot"), "Main (foot)");
    let mut s = session(&["a"]);
    assert!(s.sync_app_name(0, "b".to_string()));
    assert!(!s.sync_app_name(0, "b".to_string()));
    assert_eq!(s.unified_app_name(0), "b");
}

#[test]
fn last_wayland_app_closes_beside_x11() {
    let mut s = session(&["foot"]);
    assert!(s.map_window_request("krita".to_string(), false));
    let r = s.toplevel_destroyed(0);
    assert!(matches!(r, kioskwm::state::Destroyed::Refocus(_)));
    assert_eq!(s.running_apps.len(), 0);
    assert_eq!(s.focused_app, usize::MAX);
    assert_eq!(s.app_count(), 1);
}

#[test]
fn serial_wraps_around() {
    let mut s = session(&["a"]);
    assert_eq!(s.next_serial(), 1);
    s.serial = u32::MAX;
    assert_eq!(s.next_serial(), 0);
    assert!(kioskwm::input::input_fits(&s, 0));
    assert!(!kioskwm::input::input_fits(&s, u64::MAX));
}
