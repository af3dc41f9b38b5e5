use kioskwm::alt_tab::layout as at;
use kioskwm::context_menu::layout as cm;
use kioskwm::settings::layout as sl;
use kioskwm::settings::layout::{ConfirmAction, Screen};

#[test]
fn switcher_row_geometry() {
    assert_eq!(at::row_size(0), (0, 0));
    assert_eq!(at::row_size(1), (148 + 48, 128 + 48));
    assert_eq!(at::row_size(3), (3 * 148 + 2 * 14 + 48, 176));
    assert_eq!(at::row_origin(1280, 800, 1), ((1280 - 196) / 2, (800 - 176) / 2));
    // Too wide for the output: pinned to the left edge.
    assert_eq!(at::row_origin(100, 100, 3), (0, 0));
    let t = at::tile_rect(10, 20, 2);
    assert_eq!((t.x, t.y, t.w, t.h), (10 + 24 + 2 * 162, 44, 148, 128));
    let i = at::icon_rect(t);
    assert_eq!((i.x, i.y, i.w, i.h), (t.x + 38, t.y + 12, 72, 72));
}

#[test]
fn switcher_blink_and_letters() {
    assert!(at::blink_phase(0));
    assert!(at::blink_phase(219));
    assert!(!at::blink_phase(220));
    assert!(at::blink_phase(440));
    assert_eq!(at::app_icon_letter("krita"), 'K');
    assert_eq!(at::app_icon_letter("--foot"), 'F');
    assert_eq!(at::app_icon_letter("..."), '?');
}

#[test]
fn switcher_labels_and_styles() {
    assert_eq!(at::truncate_label("konsole", 16), "konsole");
    assert_eq!(at::truncate_label("abcdefghijklmnopqrst", 16), "abcdefghijklmno…");
    assert_eq!(at::truncate_label("abc", 0), "…");
    let (bg, border, label) = at::tile_style(true, true);
    assert_eq!(bg, kioskwm::settings::theme::tile_hover());
    assert_eq!(border, kioskwm::settings::theme::accent());
    assert_eq!(label, kioskwm::settings::theme::text());
    let (bg, border, label) = at::tile_style(false, true);
    assert_eq!(bg, kioskwm::settings::theme::tile_bg());
    assert_eq!(border, kioskwm::settings::theme::border());
    assert_eq!(label, kioskwm::settings::theme::text_inactive());
    assert_eq!(at::switcher_cache_key(1, 2, true, 3, 4), 1 | (2 << 8) | (1 << 16) | (3 << 24) | (4 << 32));
}

#[test]
fn menu_geometry() {
    assert_eq!(cm::menu_size(0), (260, 8 + 28 + 32 + 1 + 32));
    assert_eq!(cm::menu_size(2), (260, 8 + 28 + 64 + 1 + 33 + 32));
    // Pushed back inside the output.
    assert_eq!(cm::menu_origin(1270, 790, 1280, 800, 0), (1020, 699));
    assert_eq!(cm::menu_origin(10, 20, 1280, 800, 0), (10, 20));
    assert_eq!(cm::menu_origin(10, 20, 100, 10, 0), (0, 0));
    let r = cm::app_rect(100, 200, 1);
    assert_eq!((r.x, r.y, r.w, r.h), (112, 200 + 4 + 28 + 32, 244, 32));
    let c = cm::close_rect(0, 0, 2);
    assert_eq!((c.x, c.y, c.w, c.h), (4, 4 + 28 + 64 + 1, 252, 32));
    let s = cm::settings_rect(0, 0, 2);
    assert_eq!(s.y, c.y + 33);
    let s0 = cm::settings_rect(0, 0, 0);
    assert_eq!(s0.y, 4 + 28 + 1);
    assert_eq!(cm::divider_y(0, 2), 4 + 28 + 64);
    let h = cm::header_rect(0, 0);
    assert_eq!((h.x, h.y, h.w, h.h), (4, 4, 252, 28));
}

#[test]
fn menu_cache_keys() {
    assert_eq!(cm::menu_cache_key(None, 2, 1, 0), (2 << 8) | (1 << 16));
    assert_eq!(cm::menu_cache_key(Some(cm::Hit::App(4)), 0, 0, 1), 7 | (1 << 24));
    assert_eq!(cm::menu_cache_key(Some(cm::Hit::CloseApp), 0, 0, 0), 2);
    let (bg, label) = cm::app_row_style(Some(cm::Hit::App(1)), 1, true);
    assert_eq!(bg, kioskwm::settings::theme::button_hover());
    assert_eq!(label, kioskwm::settings::theme::accent());
}

#[test]
fn panel_hit_test() {
    assert_eq!(sl::hit_test(Screen::Main, None, 410, 20), sl::Hit::Close);
    assert_eq!(sl::hit_test(Screen::Main, None, 30, 90), sl::Hit::AppletMouse);
    assert_eq!(sl::hit_test(Screen::Main, None, 30, 440), sl::Hit::FooterQuit);
    assert_eq!(sl::hit_test(Screen::Main, None, 160, 440), sl::Hit::FooterShutdown);
    assert_eq!(sl::hit_test(Screen::Main, None, 300, 440), sl::Hit::FooterReboot);
    assert_eq!(sl::hit_test(Screen::Main, None, 5, 5), sl::Hit::Nothing);
    assert_eq!(sl::hit_test(Screen::Mouse, None, 20, 20), sl::Hit::MouseBack);
    assert_eq!(sl::hit_test(Screen::Mouse, None, 200, 190), sl::Hit::Slider);
    // The dialog shields everything but its buttons.
    let confirm = Some(ConfirmAction::Reboot);
    assert_eq!(sl::hit_test(Screen::Main, confirm, 410, 20), sl::Hit::Nothing);
    assert_eq!(sl::hit_test(Screen::Main, confirm, 70, 275), sl::Hit::ConfirmCancel);
    assert_eq!(sl::hit_test(Screen::Main, confirm, 250, 275), sl::Hit::ConfirmOk);
}

#[test]
fn panel_geometry() {
    assert_eq!(sl::panel_origin_logical(1280, 800), (420, 160));
    assert_eq!(sl::panel_origin_logical(300, 300), (-70, -90));
    assert_eq!(sl::pointer_to_panel_local(421, 161, 1280, 800), Some((1, 1)));
    assert_eq!(sl::pointer_to_panel_local(419, 161, 1280, 800), None);
    let f = sl::footer_buttons();
    assert_eq!((f[1].x, f[1].y, f[1].w, f[1].h), (156, 436, 126, 32));
    let (cancel, ok) = sl::confirm_buttons(sl::confirm_modal());
    assert_eq!((cancel.x, cancel.y), (68, 270));
    assert_eq!((ok.x, ok.y), (244, 270));
    let m = sl::mouse_slider();
    assert_eq!((m.x, m.y, m.w, m.h), (32, 188, 376, 4));
}

#[test]
fn menu_rows_stack() {
    let s = cm::settings_rect(0, 0, 2);
    assert_eq!((s.x, s.y, s.w, s.h), (4, 130, 252, 32));
    assert_eq!(cm::close_rect(0, 0, 2).y + 32 + 1, s.y);
    assert_eq!(s.y + 32 + 4, cm::menu_size(2).1);
    let e = cm::settings_rect(10, 20, 0);
    assert_eq!(e.y, 20 + 4 + 28 + 1);
}
