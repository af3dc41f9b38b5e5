use kioskwm::settings::raster::Canvas;
use kioskwm::settings::style::{footer_button_style, hit_cache_id, paint_chrome, paint_close, panel_cache_key};
use kioskwm::settings::layout::{ConfirmAction, Hit, Screen};
use kioskwm::settings::text::{blend, blit_mask};
use kioskwm::settings::theme::{self, Rgba};

fn px(c: &Canvas, x: i32, y: i32) -> (u8, u8, u8, u8) {
    let i = ((y * c.w + x) * 4) as usize;
    (c.pixels[i + 2], c.pixels[i + 1], c.pixels[i], c.pixels[i + 3])
}

const RED: Rgba = Rgba { r: 200, g: 10, b: 20, a: 255 };
const BLUE: Rgba = Rgba { r: 0, g: 0, b: 255, a: 128 };

#[test]
fn new_put_fill() {
    let mut c = Canvas::new(4, 3);
    assert_eq!(c.pixels.len(), 48);
    assert!(c.pixels.iter().all(|b| *b == 0));
    c.put(1, 2, RED);
    assert_eq!(px(&c, 1, 2), (200, 10, 20, 255));
    // Stored as blue, green, red, alpha.
    assert_eq!(&c.pixels[(2 * 4 + 1) * 4..(2 * 4 + 1) * 4 + 4], &[20, 10, 200, 255]);
    c.put(-1, 0, RED);
    c.put(4, 0, RED);
    assert_eq!(px(&c, 0, 0), (0, 0, 0, 0));
    c.fill(BLUE);
    for y in 0..3 {
        for x in 0..4 {
            assert_eq!(px(&c, x, y), (0, 0, 255, 128));
        }
    }
}

#[test]
fn rects_and_lines() {
    let mut c = Canvas::new(6, 6);
    c.fill_rect(-2, 1, 4, 2, RED);
    assert_eq!(px(&c, 0, 1), (200, 10, 20, 255));
    assert_eq!(px(&c, 1, 2), (200, 10, 20, 255));
    assert_eq!(px(&c, 2, 1), (0, 0, 0, 0));
    assert_eq!(px(&c, 0, 3), (0, 0, 0, 0));
    c.hline(1, 5, 10, BLUE);
    assert_eq!(px(&c, 5, 5), (0, 0, 255, 128));
    assert_eq!(px(&c, 0, 5), (0, 0, 0, 0));
    c.fill_rect(0, 0, 0, 5, BLUE);
    assert_eq!(px(&c, 0, 0), (0, 0, 0, 0));
}

#[test]
fn rounded_shapes() {
    let mut c = Canvas::new(10, 10);
    c.fill_rounded_rect(0, 0, 10, 10, 3, RED);
    // Corners are cut, edges and centre are filled.
    assert_eq!(px(&c, 0, 0), (0, 0, 0, 0));
    assert_eq!(px(&c, 9, 9), (0, 0, 0, 0));
    assert_eq!(px(&c, 5, 0), (200, 10, 20, 255));
    assert_eq!(px(&c, 5, 5), (200, 10, 20, 255));
    let mut b = Canvas::new(10, 10);
    b.bordered_rounded_rect(0, 0, 10, 10, 0, BLUE, RED);
    assert_eq!(px(&b, 0, 0), (200, 10, 20, 255));
    assert_eq!(px(&b, 1, 1), (0, 0, 255, 128));
    assert_eq!(px(&b, 9, 4), (200, 10, 20, 255));
}

#[test]
fn icons() {
    let mut c = Canvas::new(20, 16);
    c.draw_hamburger(0, 0, RED);
    assert_eq!(px(&c, 0, 0), (0, 0, 0, 0));
    assert_eq!(px(&c, 1, 0), (200, 10, 20, 255));
    assert_eq!(px(&c, 5, 6), (200, 10, 20, 255));
    assert_eq!(px(&c, 5, 3), (0, 0, 0, 0));
    assert_eq!(px(&c, 5, 13), (200, 10, 20, 255));
    let mut x = Canvas::new(12, 12);
    x.draw_close(0, 0, RED);
    assert_eq!(px(&x, 0, 0), (200, 10, 20, 255));
    assert_eq!(px(&x, 11, 0), (200, 10, 20, 255));
    assert_eq!(px(&x, 5, 5), (200, 10, 20, 255));
    assert_eq!(px(&x, 6, 5), (200, 10, 20, 255));
    assert_eq!(px(&x, 3, 5), (0, 0, 0, 0));
}

#[test]
fn circles() {
    let mut c = Canvas::new(11, 11);
    c.fill_circle(5, 5, 4, BLUE, RED);
    assert_eq!(px(&c, 5, 5), (0, 0, 255, 128));
    assert_eq!(px(&c, 9, 5), (200, 10, 20, 255));
    assert_eq!(px(&c, 1, 1), (0, 0, 0, 0));
    let mut d = Canvas::new(3, 3);
    d.fill_circle(1, 1, 0, BLUE, RED);
    // Radius is at least one: every pixel of the plus sign is on the ring.
    assert_eq!(px(&d, 1, 1), (200, 10, 20, 255));
    assert_eq!(px(&d, 0, 1), (200, 10, 20, 255));
    assert_eq!(px(&d, 0, 0), (0, 0, 0, 0));
}

#[test]
fn blending() {
    let mut c = Canvas::new(2, 1);
    c.put(0, 0, Rgba { r: 0, g: 100, b: 255, a: 255 });
    blend(&mut c, 0, 0, Rgba { r: 255, g: 0, b: 0, a: 255 }, 51);
    // (255 * 51 + 0 * 204) / 255 = 51; (0 * 51 + 100 * 204) / 255 = 80; (0 + 255 * 204) / 255 = 204.
    assert_eq!(px(&c, 0, 0), (51, 80, 204, 255));
    blend(&mut c, 1, 0, BLUE, 255);
    assert_eq!(px(&c, 1, 0), (0, 0, 255, 128));
    blend(&mut c, 5, 0, BLUE, 10);
    let mut m = Canvas::new(3, 2);
    let mask = vec![255, 0, 9, 128, 0, 9];
    blit_mask(&mut m, 1, 0, 2, 2, 3, &mask, RED);
    assert_eq!(px(&m, 1, 0), (200, 10, 20, 255));
    assert_eq!(px(&m, 2, 0), (0, 0, 0, 0));
    assert_eq!(px(&m, 1, 1), (100, 5, 10, 255));
    assert_eq!(px(&m, 0, 0), (0, 0, 0, 0));
}

#[test]
fn panel_decoration() {
    let mut c = Canvas::new(440, 480);
    paint_chrome(&mut c);
    let bg = theme::window_bg();
    let border = theme::border();
    assert_eq!(px(&c, 200, 200), (bg.r, bg.g, bg.b, bg.a));
    assert_eq!(px(&c, 200, 0), (border.r, border.g, border.b, border.a));
    paint_close(&mut c, Some(Hit::Close));
    let hov = theme::close_hover();
    assert_eq!(px(&c, 402, 20), (hov.r, hov.g, hov.b, hov.a));
    let ti = theme::text_inactive();
    assert_eq!(px(&c, 409, 18), (ti.r, ti.g, ti.b, ti.a));
    assert_eq!(footer_button_style(Some(Hit::FooterReboot), Hit::FooterReboot, true), (theme::negative_hover(), theme::negative()));
    assert_eq!(footer_button_style(None, Hit::FooterQuit, false), (theme::button_bg(), theme::border()));
    assert_eq!(hit_cache_id(Hit::ConfirmOk), 9);
    assert_eq!(panel_cache_key(Screen::Mouse, Some(ConfirmAction::Reboot), 5, Some(Hit::Slider), 1), 1 | (3 << 4) | (5 << 8) | (7 << 12) | (1 << 16));
    assert_eq!(panel_cache_key(Screen::Main, None, 5, None, 0), 0);
}

#[test]
fn rounded_rect_shape() {
    let mut c = Canvas::new(14, 10);
    c.fill_rounded_rect(1, 1, 12, 8, 3, RED);
    let red = (200, 10, 20, 255);
    for (x, y) in [(1, 1), (12, 1), (1, 8), (12, 8)] {
        assert_eq!(px(&c, x, y), (0, 0, 0, 0));
    }
    for y in 1..9 {
        for x in 1..13 {
            assert_eq!(px(&c, x, y), px(&c, 13 - x, y));
            assert_eq!(px(&c, x, y), px(&c, x, 9 - y));
        }
    }
    assert_eq!(px(&c, 6, 4), red);
    let mut square = Canvas::new(6, 6);
    square.fill_rounded_rect(1, 1, 4, 4, 0, RED);
    assert_eq!(px(&square, 1, 1), red);
    assert_eq!(px(&square, 4, 4), red);
    assert_eq!(px(&square, 0, 0), (0, 0, 0, 0));
}
