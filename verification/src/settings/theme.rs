//! Breeze Dark palette and panel metrics shared by the WM overlays.

use vstd::prelude::*;

verus! {

/// An 8-bit RGBA colour.
#[derive(Clone, Copy, PartialEq, Eq, Debug, Structural)]
pub struct Rgba {
    pub r: u8,
    pub g: u8,
    pub b: u8,
    pub a: u8,
}

impl Rgba {
    pub fn new(r: u8, g: u8, b: u8, a: u8) -> (c: Self)
        ensures
            c == (Rgba { r, g, b, a }),
    {
        Rgba { r, g, b, a }
    }
}

/// Uniform panel background (same as a KDE window).
pub open spec fn spec_window_bg() -> Rgba {
    Rgba { r: 41, g: 44, b: 48, a: 255 }
}

pub fn window_bg() -> (c: Rgba)
    ensures
        c == spec_window_bg(),
{
    Rgba { r: 41, g: 44, b: 48, a: 255 }
}

pub open spec fn spec_tile_bg() -> Rgba {
    Rgba { r: 49, g: 54, b: 59, a: 255 }
}

pub fn tile_bg() -> (c: Rgba)
    ensures
        c == spec_tile_bg(),
{
    Rgba { r: 49, g: 54, b: 59, a: 255 }
}

pub open spec fn spec_tile_icon_bg() -> Rgba {
    Rgba { r: 61, g: 174, b: 233, a: 55 }
}

pub fn tile_icon_bg() -> (c: Rgba)
    ensures
        c == spec_tile_icon_bg(),
{
    Rgba { r: 61, g: 174, b: 233, a: 55 }
}

pub open spec fn spec_button_bg() -> Rgba {
    Rgba { r: 49, g: 54, b: 59, a: 255 }
}

pub fn button_bg() -> (c: Rgba)
    ensures
        c == spec_button_bg(),
{
    Rgba { r: 49, g: 54, b: 59, a: 255 }
}

pub open spec fn spec_button_hover() -> Rgba {
    Rgba { r: 61, g: 65, b: 70, a: 255 }
}

pub fn button_hover() -> (c: Rgba)
    ensures
        c == spec_button_hover(),
{
    Rgba { r: 61, g: 65, b: 70, a: 255 }
}

pub open spec fn spec_tile_hover() -> Rgba {
    Rgba { r: 61, g: 65, b: 70, a: 255 }
}

pub fn tile_hover() -> (c: Rgba)
    ensures
        c == spec_tile_hover(),
{
    Rgba { r: 61, g: 65, b: 70, a: 255 }
}

pub open spec fn spec_close_hover() -> Rgba {
    Rgba { r: 61, g: 65, b: 70, a: 255 }
}

pub fn close_hover() -> (c: Rgba)
    ensures
        c == spec_close_hover(),
{
    Rgba { r: 61, g: 65, b: 70, a: 255 }
}

pub open spec fn spec_negative_hover() -> Rgba {
    Rgba { r: 140, g: 48, b: 58, a: 255 }
}

pub fn negative_hover() -> (c: Rgba)
    ensures
        c == spec_negative_hover(),
{
    Rgba { r: 140, g: 48, b: 58, a: 255 }
}

pub open spec fn spec_text() -> Rgba {
    Rgba { r: 252, g: 252, b: 252, a: 255 }
}

pub fn text() -> (c: Rgba)
    ensures
        c == spec_text(),
{
    Rgba { r: 252, g: 252, b: 252, a: 255 }
}

pub open spec fn spec_text_inactive() -> Rgba {
    Rgba { r: 161, g: 169, b: 177, a: 255 }
}

pub fn text_inactive() -> (c: Rgba)
    ensures
        c == spec_text_inactive(),
{
    Rgba { r: 161, g: 169, b: 177, a: 255 }
}

pub open spec fn spec_accent() -> Rgba {
    Rgba { r: 61, g: 174, b: 233, a: 255 }
}

pub fn accent() -> (c: Rgba)
    ensures
        c == spec_accent(),
{
    Rgba { r: 61, g: 174, b: 233, a: 255 }
}

pub open spec fn spec_negative() -> Rgba {
    Rgba { r: 218, g: 68, b: 83, a: 255 }
}

pub fn negative() -> (c: Rgba)
    ensures
        c == spec_negative(),
{
    Rgba { r: 218, g: 68, b: 83, a: 255 }
}

pub open spec fn spec_border() -> Rgba {
    Rgba { r: 70, g: 74, b: 79, a: 255 }
}

pub fn border() -> (c: Rgba)
    ensures
        c == spec_border(),
{
    Rgba { r: 70, g: 74, b: 79, a: 255 }
}

pub open spec fn spec_slider_track() -> Rgba {
    Rgba { r: 61, g: 65, b: 70, a: 255 }
}

pub fn slider_track() -> (c: Rgba)
    ensures
        c == spec_slider_track(),
{
    Rgba { r: 61, g: 65, b: 70, a: 255 }
}

pub open spec fn spec_slider_tick() -> Rgba {
    Rgba { r: 87, g: 91, b: 96, a: 255 }
}

pub fn slider_tick() -> (c: Rgba)
    ensures
        c == spec_slider_tick(),
{
    Rgba { r: 87, g: 91, b: 96, a: 255 }
}

pub open spec fn spec_modal_scrim() -> Rgba {
    Rgba { r: 0, g: 0, b: 0, a: 120 }
}

pub fn modal_scrim() -> (c: Rgba)
    ensures
        c == spec_modal_scrim(),
{
    Rgba { r: 0, g: 0, b: 0, a: 120 }
}

pub open spec fn spec_modal_bg() -> Rgba {
    Rgba { r: 49, g: 54, b: 59, a: 255 }
}

pub fn modal_bg() -> (c: Rgba)
    ensures
        c == spec_modal_bg(),
{
    Rgba { r: 49, g: 54, b: 59, a: 255 }
}

pub open spec fn spec_knob_fill() -> Rgba {
    Rgba { r: 239, g: 240, b: 241, a: 255 }
}

pub fn knob_fill() -> (c: Rgba)
    ensures
        c == spec_knob_fill(),
{
    Rgba { r: 239, g: 240, b: 241, a: 255 }
}


pub const HEADER_H: i32 = 48;
pub const FOOTER_H: i32 = 52;
pub const MOUSE_FOOTER_H: i32 = 48;
pub const PANEL_W: i32 = 440;
pub const PANEL_H: i32 = 480;
pub const PANEL_RADIUS: i32 = 8;

} // verus!
