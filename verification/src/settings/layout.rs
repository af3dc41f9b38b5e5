//! Geometry of the settings panel (P1) and its hit testing, in panel-local pixels.

use vstd::prelude::*;

use super::theme::{FOOTER_H, PANEL_H, PANEL_W};

verus! {

#[derive(Clone, Copy, Debug, PartialEq, Eq, Structural)]
pub enum Screen {
    Main,
    Mouse,
}

#[derive(Clone, Copy, Debug, PartialEq, Eq, Structural)]
pub enum ConfirmAction {
    QuitWm,
    Shutdown,
    Reboot,
}

#[derive(Clone, Copy, Debug, PartialEq, Eq, Structural)]
pub enum Hit {
    Nothing,
    Close,
    AppletMouse,
    FooterQuit,
    FooterShutdown,
    FooterReboot,
    MouseBack,
    Slider,
    ConfirmCancel,
    ConfirmOk,
}

#[derive(Clone, Copy, Debug, PartialEq, Eq, Structural)]
pub struct Rect {
    pub x: i32,
    pub y: i32,
    pub w: i32,
    pub h: i32,
}

/// Half-open containment: `[x, x + w) x [y, y + h)`.
pub open spec fn rect_has(r: Rect, px: int, py: int) -> bool {
    r.x <= px && r.y <= py && px < r.x + r.w && py < r.y + r.h
}

impl Rect {
    pub fn contains(&self, x: i32, y: i32) -> (b: bool)
        requires
            i32::MIN <= self.x + self.w <= i32::MAX,
            i32::MIN <= self.y + self.h <= i32::MAX,
        ensures
            b == rect_has(*self, x as int, y as int),
    {
        x >= self.x && y >= self.y && x < self.x + self.w && y < self.y + self.h
    }
}

pub open spec fn spec_applet_mouse() -> Rect {
    Rect { x: 20, y: 78, w: 200, h: 36 }
}

pub fn applet_mouse() -> (r: Rect)
    ensures
        r == spec_applet_mouse(),
{
    Rect { x: 20, y: 78, w: 200, h: 36 }
}

pub open spec fn spec_header_close() -> Rect {
    Rect { x: 400, y: 8, w: 32, h: 32 }
}

pub fn header_close() -> (r: Rect)
    ensures
        r == spec_header_close(),
{
    Rect { x: 400, y: 8, w: 32, h: 32 }
}

pub open spec fn spec_mouse_back() -> Rect {
    Rect { x: 12, y: 8, w: 96, h: 32 }
}

pub fn mouse_back() -> (r: Rect)
    ensures
        r == spec_mouse_back(),
{
    Rect { x: 12, y: 8, w: 96, h: 32 }
}

/// Footer buttons: three equal widths `(PANEL_W - 40 - 2 * 10) / 3 = 126` with 10 px gaps,
/// 8 px below the footer separator at `PANEL_H - FOOTER_H`.
pub open spec fn spec_footer_buttons() -> [Rect; 3] {
    [
        Rect { x: 20, y: 436, w: 126, h: 32 },
        Rect { x: 156, y: 436, w: 126, h: 32 },
        Rect { x: 292, y: 436, w: 126, h: 32 },
    ]
}

/// The three footer buttons (quit WM, shut down, restart), left to right.
pub fn footer_buttons() -> (r: [Rect; 3])
    ensures
        r@ == spec_footer_buttons()@,
{
    let y = PANEL_H - FOOTER_H + 8;
    let h: i32 = 32;
    let gap: i32 = 10;
    let w = (PANEL_W - 40 - gap * 2) / 3;
    [
        Rect { x: 20, y, w, h },
        Rect { x: 20 + w + gap, y, w, h },
        Rect { x: 20 + (w + gap) * 2, y, w, h },
    ]
}

pub open spec fn spec_mouse_slider() -> Rect {
    Rect { x: 32, y: 188, w: 376, h: 4 }
}

/// The pointer-speed slider track.
pub fn mouse_slider() -> (r: Rect)
    ensures
        r == spec_mouse_slider(),
{
    Rect { x: 32, y: 188, w: PANEL_W - 64, h: 4 }
}

pub open spec fn spec_confirm_modal() -> Rect {
    Rect { x: 50, y: 140, w: 340, h: 180 }
}

/// The confirmation dialog frame.
pub fn confirm_modal() -> (r: Rect)
    ensures
        r == spec_confirm_modal(),
{
    Rect { x: 50, y: 140, w: 340, h: 180 }
}

pub open spec fn spec_confirm_buttons(modal: Rect) -> (Rect, Rect) {
    (
        Rect { x: (modal.x + 18) as i32, y: (modal.y + modal.h - 50) as i32, w: 128, h: 32 },
        Rect {
            x: (modal.x + modal.w - 146) as i32,
            y: (modal.y + modal.h - 50) as i32,
            w: 128,
            h: 32,
        },
    )
}

/// Cancel (left) and confirm (right) buttons at the bottom of `modal`.
pub fn confirm_buttons(modal: Rect) -> (r: (Rect, Rect))
    requires
        i32::MIN + 50 <= modal.y + modal.h <= i32::MAX,
        i32::MIN <= modal.x + modal.w - 146,
        modal.x + 18 <= i32::MAX,
        modal.x + modal.w <= i32::MAX,
    ensures
        r == spec_confirm_buttons(modal),
{
    let bw: i32 = 128;
    let bh: i32 = 32;
    let y = modal.y + modal.h - bh - 18;
    (
        Rect { x: modal.x + 18, y, w: bw, h: bh },
        Rect { x: modal.x + modal.w - bw - 18, y, w: bw, h: bh },
    )
}

/// The slider's grab area: the track grown by 12 px sideways and 28 px up and down.
pub open spec fn slider_grab_area() -> Rect {
    Rect { x: 20, y: 160, w: 400, h: 60 }
}

/// What the panel shows under panel-local point `(x, y)`.
pub open spec fn spec_hit_test(screen: Screen, confirm: Option<ConfirmAction>, x: int, y: int) -> Hit {
    if confirm is Some {
        let (cancel, ok) = spec_confirm_buttons(spec_confirm_modal());
        if rect_has(cancel, x, y) {
            Hit::ConfirmCancel
        } else if rect_has(ok, x, y) {
            Hit::ConfirmOk
        } else {
            Hit::Nothing
        }
    } else if rect_has(spec_header_close(), x, y) {
        Hit::Close
    } else {
        match screen {
            Screen::Main => {
                let f = spec_footer_buttons();
                if rect_has(spec_applet_mouse(), x, y) {
                    Hit::AppletMouse
                } else if rect_has(f[0], x, y) {
                    Hit::FooterQuit
                } else if rect_has(f[1], x, y) {
                    Hit::FooterShutdown
                } else if rect_has(f[2], x, y) {
                    Hit::FooterReboot
                } else {
                    Hit::Nothing
                }
            },
            Screen::Mouse => {
                if rect_has(spec_mouse_back(), x, y) {
                    Hit::MouseBack
                } else if rect_has(slider_grab_area(), x, y) {
                    Hit::Slider
                } else {
                    Hit::Nothing
                }
            },
        }
    }
}

pub fn hit_test(screen: Screen, confirm: Option<ConfirmAction>, x: i32, y: i32) -> (h: Hit)
    ensures
        h == spec_hit_test(screen, confirm, x as int, y as int),
{
    if confirm.is_some() {
        let modal = confirm_modal();
        let (cancel, ok) = confirm_buttons(modal);
        if cancel.contains(x, y) {
            return Hit::ConfirmCancel;
        }
        if ok.contains(x, y) {
            return Hit::ConfirmOk;
        }
        return Hit::Nothing;
    }
    if header_close().contains(x, y) {
        return Hit::Close;
    }
    match screen {
        Screen::Main => {
            if applet_mouse().contains(x, y) {
                return Hit::AppletMouse;
            }
            let footers = footer_buttons();
            if footers[0].contains(x, y) {
                return Hit::FooterQuit;
            }
            if footers[1].contains(x, y) {
                return Hit::FooterShutdown;
            }
            if footers[2].contains(x, y) {
                return Hit::FooterReboot;
            }
        },
        Screen::Mouse => {
            if mouse_back().contains(x, y) {
                return Hit::MouseBack;
            }
            let track = mouse_slider();
            let hit = Rect { x: track.x - 12, y: track.y - 28, w: track.w + 24, h: track.h + 56 };
            if hit.contains(x, y) {
                return Hit::Slider;
            }
        },
    }
    Hit::Nothing
}

pub open spec fn spec_panel_origin(output_w: int, output_h: int) -> (int, int) {
    (crate::geom::tdiv(output_w - PANEL_W, 2), crate::geom::tdiv(output_h - PANEL_H, 2))
}

/// Top-left corner of the centred panel on an output of the given logical size.
pub fn panel_origin_logical(output_w: i32, output_h: i32) -> (r: (i32, i32))
    requires
        output_w >= i32::MIN + PANEL_W,
        output_h >= i32::MIN + PANEL_H,
    ensures
        (r.0 as int, r.1 as int) == spec_panel_origin(output_w as int, output_h as int),
{
    ((output_w - PANEL_W) / 2, (output_h - PANEL_H) / 2)
}

/// Panel-local coordinates of the (integer) pointer position, when it falls on the panel.
pub fn pointer_to_panel_local(pos_x: i32, pos_y: i32, output_w: i32, output_h: i32) -> (r: Option<(i32, i32)>)
    requires
        output_w >= i32::MIN + PANEL_W,
        output_h >= i32::MIN + PANEL_H,
    ensures
        ({
            let (ox, oy) = spec_panel_origin(output_w as int, output_h as int);
            let lx = pos_x - ox;
            let ly = pos_y - oy;
            &&& (r is Some) == (0 <= lx < PANEL_W && 0 <= ly < PANEL_H)
            &&& r matches Some(p) ==> p.0 == lx && p.1 == ly
        }),
{
    let (ox, oy) = panel_origin_logical(output_w, output_h);
    let lx = pos_x as i64 - ox as i64;
    let ly = pos_y as i64 - oy as i64;
    if lx >= 0 && ly >= 0 && lx < PANEL_W as i64 && ly < PANEL_H as i64 {
        Some((lx as i32, ly as i32))
    } else {
        None
    }
}

pub const SLIDER_LABEL_LEFT: &'static str = "0.01x";
pub const SLIDER_LABEL_CENTER: &'static str = "1x";
pub const SLIDER_LABEL_RIGHT: &'static str = "4x";

} // verus!
