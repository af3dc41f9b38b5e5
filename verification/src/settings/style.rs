//! Panel decoration: the window chrome, the close button, button colours and the cache
//! key of the panel picture.

use vstd::prelude::*;

use super::layout::{self, spec_header_close, ConfirmAction, Hit, Screen};
use super::raster::{
    bordered, cross_region, lemma_paint_then, painted, rounded_region, solid, Canvas,
};
use super::theme::{self, Rgba, PANEL_H, PANEL_RADIUS, PANEL_W};

verus! {

/// Fill and border of a footer or dialog button: destructive buttons get a red border and
/// a red hover; others the normal border and hover.
pub open spec fn spec_button_style(hover: Option<Hit>, hit: Hit, destructive: bool) -> (Rgba, Rgba) {
    let hovered = hover == Some(hit);
    if destructive {
        (if hovered { theme::spec_negative_hover() } else { theme::spec_button_bg() }, theme::spec_negative())
    } else {
        (if hovered { theme::spec_button_hover() } else { theme::spec_button_bg() }, theme::spec_border())
    }
}

pub fn footer_button_style(hover: Option<Hit>, hit: Hit, destructive: bool) -> (r: (Rgba, Rgba))
    ensures
        r == spec_button_style(hover, hit, destructive),
{
    let hovered = hover == Some(hit);
    if destructive {
        (if hovered { theme::negative_hover() } else { theme::button_bg() }, theme::negative())
    } else {
        (if hovered { theme::button_hover() } else { theme::button_bg() }, theme::border())
    }
}

pub open spec fn spec_hit_cache_id(hit: Hit) -> u64 {
    match hit {
        Hit::Nothing => 0,
        Hit::Close => 1,
        Hit::AppletMouse => 2,
        Hit::FooterQuit => 3,
        Hit::FooterShutdown => 4,
        Hit::FooterReboot => 5,
        Hit::MouseBack => 6,
        Hit::Slider => 7,
        Hit::ConfirmCancel => 8,
        Hit::ConfirmOk => 9,
    }
}

/// Number of a panel entry in the cache key.
pub fn hit_cache_id(hit: Hit) -> (r: u64)
    ensures
        r == spec_hit_cache_id(hit),
{
    match hit {
        Hit::Nothing => 0,
        Hit::Close => 1,
        Hit::AppletMouse => 2,
        Hit::FooterQuit => 3,
        Hit::FooterShutdown => 4,
        Hit::FooterReboot => 5,
        Hit::MouseBack => 6,
        Hit::Slider => 7,
        Hit::ConfirmCancel => 8,
        Hit::ConfirmOk => 9,
    }
}

pub open spec fn spec_confirm_id(confirm: Option<ConfirmAction>) -> u64 {
    match confirm {
        None => 0,
        Some(ConfirmAction::QuitWm) => 1,
        Some(ConfirmAction::Shutdown) => 2,
        Some(ConfirmAction::Reboot) => 3,
    }
}

/// Cache key of the panel picture: screen, dialog, quantized pointer speed (`speed_q`, on
/// the mouse screen only), hovered entry and language packed in one word.
pub open spec fn spec_panel_cache_key(screen: Screen, confirm: Option<ConfirmAction>, speed_q: u64, hover: Option<Hit>, lang: u8) -> u64 {
    let sc: u64 = if screen == Screen::Main { 0 } else { 1 };
    let sq: u64 = if screen == Screen::Mouse { speed_q } else { 0 };
    let h: u64 = match hover {
        Some(hit) => spec_hit_cache_id(hit),
        None => 0,
    };
    sc | (spec_confirm_id(confirm) << 4u64) | (sq << 8u64) | (h << 12u64) | ((lang as u64) << 16u64)
}

pub fn panel_cache_key(screen: Screen, confirm: Option<ConfirmAction>, speed_q: u64, hover: Option<Hit>, lang: u8) -> (r: u64)
    ensures
        r == spec_panel_cache_key(screen, confirm, speed_q, hover, lang),
{
    let sc: u64 = if screen == Screen::Main { 0 } else { 1 };
    let c: u64 = match confirm {
        None => 0,
        Some(ConfirmAction::QuitWm) => 1,
        Some(ConfirmAction::Shutdown) => 2,
        Some(ConfirmAction::Reboot) => 3,
    };
    let sq: u64 = if screen == Screen::Mouse { speed_q } else { 0 };
    let h: u64 = match hover {
        Some(hit) => hit_cache_id(hit),
        None => 0,
    };
    sc | (c << 4u64) | (sq << 8u64) | (h << 12u64) | ((lang as u64) << 16u64)
}

/// The panel window: its background, with a rounded one-pixel border.
pub open spec fn chrome() -> spec_fn(int, int) -> Option<Rgba> {
    |a: int, b: int|
        match bordered(0, 0, PANEL_W as int, PANEL_H as int, PANEL_RADIUS as int, theme::spec_window_bg(), theme::spec_border())(a, b) {
            Some(c) => Some(c),
            None => Some(theme::spec_window_bg()),
        }
}

pub fn paint_chrome(c: &mut Canvas)
    requires
        old(c).wf(),
    ensures
        final(c).wf(),
        final(c).w == old(c).w,
        final(c).h == old(c).h,
        painted(final(c).pixels@, old(c).pixels@, old(c).w as int, old(c).h as int, chrome()),
{
    let ghost s0 = c.pixels@;
    c.fill(theme::window_bg());
    let ghost s1 = c.pixels@;
    c.bordered_rounded_rect(0, 0, PANEL_W, PANEL_H, PANEL_RADIUS, theme::window_bg(), theme::border());
    proof {
        lemma_paint_then(
            s0,
            s1,
            c.pixels@,
            c.w as int,
            c.h as int,
            solid(|x: int, y: int| true, theme::spec_window_bg()),
            bordered(0, 0, PANEL_W as int, PANEL_H as int, PANEL_RADIUS as int, theme::spec_window_bg(), theme::spec_border()),
            chrome(),
        );
    }
}

/// The header's close button: a rounded highlight when hovered, then the cross.
pub open spec fn close_button(hovered: bool) -> spec_fn(int, int) -> Option<Rgba> {
    let r = spec_header_close();
    |a: int, b: int|
        if cross_region(r.x + 9, r.y + 10, 12)(a, b) {
            Some(theme::spec_text_inactive())
        } else if hovered && rounded_region(r.x as int, r.y as int, r.w as int, r.h as int, 6)(a, b) {
            Some(theme::spec_close_hover())
        } else {
            None
        }
}

pub fn paint_close(c: &mut Canvas, hover: Option<Hit>)
    requires
        old(c).wf(),
    ensures
        final(c).wf(),
        final(c).w == old(c).w,
        final(c).h == old(c).h,
        painted(final(c).pixels@, old(c).pixels@, old(c).w as int, old(c).h as int, close_button(hover == Some(Hit::Close))),
{
    let r = layout::header_close();
    let ghost s0 = c.pixels@;
    let hovered = hover == Some(Hit::Close);
    if hovered {
        c.fill_rounded_rect(r.x, r.y, r.w, r.h, 6, theme::close_hover());
    } else {
        proof {
            super::raster::lemma_paint_nothing(s0, c.w as int, c.h as int, solid(|x: int, y: int| false, theme::spec_close_hover()));
        }
    }
    let ghost s1 = c.pixels@;
    c.draw_close(r.x + 9, r.y + 10, theme::text_inactive());
    proof {
        let first = if hovered {
            solid(rounded_region(r.x as int, r.y as int, r.w as int, r.h as int, 6), theme::spec_close_hover())
        } else {
            solid(|x: int, y: int| false, theme::spec_close_hover())
        };
        lemma_paint_then(
            s0,
            s1,
            c.pixels@,
            c.w as int,
            c.h as int,
            first,
            solid(cross_region(r.x + 9, r.y + 10, 12), theme::spec_text_inactive()),
            close_button(hovered),
        );
    }
}

} // verus!
