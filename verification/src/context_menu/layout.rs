//! WM context menu geometry (menu-local pixels, y down) and hit testing.

use vstd::prelude::*;

use crate::apps::{menu_label, spec_menu_label, RunningApp};
use crate::geom::max_int;
use crate::i18n::{msg_text, I18n, Msg};
use crate::settings::theme::{self, Rgba};
use crate::state::State;

verus! {

#[derive(Clone, Copy, Debug, PartialEq, Eq, Structural)]
pub enum Hit {
    Nothing,
    App(usize),
    CloseApp,
    OpenSettings,
}

#[derive(Clone, Copy, Debug, PartialEq, Eq, Structural)]
pub struct Rect {
    pub x: i32,
    pub y: i32,
    pub w: i32,
    pub h: i32,
}

/// Half-open containment: `[x, x + w) x [y, y + h)`.
pub open spec fn rect_has(r: Rect, px: int, py: int) -> bool {
    r.x <= px && r.y <= py && px < r.x + r.w && py < r.y + r.h
}

impl Rect {
    pub fn contains(&self, x: i32, y: i32) -> (b: bool)
        requires
            i32::MIN <= self.x + self.w <= i32::MAX,
            i32::MIN <= self.y + self.h <= i32::MAX,
        ensures
            b == rect_has(*self, x as int, y as int),
    {
        x >= self.x && y >= self.y && x < self.x + self.w && y < self.y + self.h
    }
}

pub const MENU_W: i32 = 260;
pub const ITEM_H: i32 = 32;
pub const PADDING: i32 = 4;
pub const RADIUS: i32 = 6;
pub const HEADER_H: i32 = 28;
pub const DIVIDER_H: i32 = 1;

/// App counts whose menu height fits an `i32` (with room for the origin offsets).
pub open spec fn count_fits(app_count: int) -> bool {
    0 <= app_count && app_count * ITEM_H <= 0x3fff_0000
}

/// Height of the "close window" row and its divider (only when apps exist).
pub open spec fn spec_close_section_h(app_count: int) -> int {
    if app_count > 0 {
        ITEM_H + DIVIDER_H
    } else {
        0
    }
}

fn close_section_h(app_count: usize) -> (r: i32)
    ensures
        r == spec_close_section_h(app_count as int),
{
    if app_count > 0 {
        ITEM_H + DIVIDER_H
    } else {
        0
    }
}

pub open spec fn spec_menu_size(app_count: int) -> (int, int) {
    let h = PADDING * 2 + HEADER_H + app_count * ITEM_H + DIVIDER_H + spec_close_section_h(app_count) + ITEM_H;
    (MENU_W as int, max_int(h, PADDING * 2 + HEADER_H + ITEM_H + DIVIDER_H + ITEM_H))
}

/// Menu size: header, one row per app, close row (with apps) and the settings row.
pub fn menu_size(app_count: usize) -> (r: (i32, i32))
    requires
        count_fits(app_count as int),
    ensures
        (r.0 as int, r.1 as int) == spec_menu_size(app_count as int),
{
    let apps_h = app_count as i32 * ITEM_H;
    let close_h = close_section_h(app_count);
    let settings_h = ITEM_H;
    let h = PADDING * 2 + HEADER_H + apps_h + DIVIDER_H + close_h + settings_h;
    let min_h = PADDING * 2 + HEADER_H + ITEM_H + DIVIDER_H + ITEM_H;
    (MENU_W, if h >= min_h { h } else { min_h })
}

pub open spec fn spec_menu_origin(anchor_x: int, anchor_y: int, output_w: int, output_h: int, app_count: int) -> (int, int) {
    let (mw, mh) = spec_menu_size(app_count);
    let x = if anchor_x + mw > output_w { output_w - mw } else { anchor_x };
    let y = if anchor_y + mh > output_h { output_h - mh } else { anchor_y };
    (max_int(x, 0), max_int(y, 0))
}

/// Top-left of the menu opened at the (floored) anchor, pushed back inside the output.
pub fn menu_origin(anchor_x: i32, anchor_y: i32, output_w: i32, output_h: i32, app_count: usize) -> (r: (i32, i32))
    requires
        count_fits(app_count as int),
        output_w >= i32::MIN + MENU_W,
        output_h >= i32::MIN + 0x4000_0000,
    ensures
        (r.0 as int, r.1 as int) == spec_menu_origin(anchor_x as int, anchor_y as int, output_w as int, output_h as int, app_count as int),
{
    let (mw, mh) = menu_size(app_count);
    let mut x = anchor_x;
    let mut y = anchor_y;
    if x as i64 + mw as i64 > output_w as i64 {
        x = output_w - mw;
    }
    if y as i64 + mh as i64 > output_h as i64 {
        y = output_h - mh;
    }
    (if x >= 0 { x } else { 0 }, if y >= 0 { y } else { 0 })
}

/// Geometry helpers take origins within this range, so every edge fits an `i32`.
pub open spec fn origin_fits(o: int) -> bool {
    -0x3fff_ffff <= o <= 0x3fff_ffff
}

pub open spec fn spec_header_rect(origin_x: int, origin_y: int) -> Rect {
    Rect { x: (origin_x + PADDING) as i32, y: (origin_y + PADDING) as i32, w: 252, h: HEADER_H }
}

pub fn header_rect(origin_x: i32, origin_y: i32) -> (r: Rect)
    requires
        origin_fits(origin_x as int),
        origin_fits(origin_y as int),
    ensures
        r == spec_header_rect(origin_x as int, origin_y as int),
{
    Rect { x: origin_x + PADDING, y: origin_y + PADDING, w: MENU_W - PADDING * 2, h: HEADER_H }
}

pub open spec fn spec_app_rect(origin_x: int, origin_y: int, index: int) -> Rect {
    Rect {
        x: (origin_x + PADDING + 8) as i32,
        y: (origin_y + PADDING + HEADER_H + index * ITEM_H) as i32,
        w: 244,
        h: ITEM_H,
    }
}

/// Row of app `index` (indented by 8 px).
pub fn app_rect(origin_x: i32, origin_y: i32, index: usize) -> (r: Rect)
    requires
        origin_fits(origin_x as int),
        origin_fits(origin_y as int),
        count_fits(index as int),
    ensures
        r == spec_app_rect(origin_x as int, origin_y as int, index as int),
{
    let y = origin_y + PADDING + HEADER_H + index as i32 * ITEM_H;
    Rect { x: origin_x + PADDING + 8, y, w: MENU_W - PADDING * 2 - 8, h: ITEM_H }
}

pub open spec fn spec_close_rect(origin_x: int, origin_y: int, app_count: int) -> Rect {
    Rect {
        x: (origin_x + PADDING) as i32,
        y: (origin_y + PADDING + HEADER_H + app_count * ITEM_H + DIVIDER_H) as i32,
        w: 252,
        h: ITEM_H,
    }
}

/// "Close window" row, below the app rows and their divider.
pub fn close_rect(origin_x: i32, origin_y: i32, app_count: usize) -> (r: Rect)
    requires
        origin_fits(origin_x as int),
        origin_fits(origin_y as int),
        count_fits(app_count as int),
    ensures
        r == spec_close_rect(origin_x as int, origin_y as int, app_count as int),
{
    let y = origin_y + PADDING + HEADER_H + app_count as i32 * ITEM_H + DIVIDER_H;
    Rect { x: origin_x + PADDING, y, w: MENU_W - PADDING * 2, h: ITEM_H }
}

pub open spec fn spec_settings_rect(origin_x: int, origin_y: int, app_count: int) -> Rect {
    Rect {
        x: (origin_x + PADDING) as i32,
        y: (spec_close_rect(origin_x, origin_y, app_count).y + spec_close_section_h(app_count)) as i32,
        w: 252,
        h: ITEM_H,
    }
}

/// "Open settings" row: below the close row when there are apps, else right after the divider.
pub fn settings_rect(origin_x: i32, origin_y: i32, app_count: usize) -> (r: Rect)
    requires
        origin_fits(origin_x as int),
        origin_fits(origin_y as int),
        count_fits(app_count as int),
    ensures
        r == spec_settings_rect(origin_x as int, origin_y as int, app_count as int),
{
    let y = close_rect(origin_x, origin_y, app_count).y + close_section_h(app_count);
    Rect { x: origin_x + PADDING, y, w: MENU_W - PADDING * 2, h: ITEM_H }
}

/// The menu's rows stack in order: the first app row right under the header, each app row
/// under the one before, the close row (with apps) under the divider, then the settings
/// row, which spans the menu's inner width and, when there are apps, ends at the menu's
/// bottom padding.
pub proof fn lemma_menu_rows_stack(ox: int, oy: int, n: int)
    requires
        origin_fits(ox),
        origin_fits(oy),
        count_fits(n),
    ensures
        spec_app_rect(ox, oy, 0).y == spec_header_rect(ox, oy).y + HEADER_H,
        n >= 1 ==> spec_app_rect(ox, oy, n - 1).y + ITEM_H == spec_app_rect(ox, oy, n).y,
        spec_settings_rect(ox, oy, n).x == ox + PADDING,
        spec_settings_rect(ox, oy, n).w == MENU_W - 2 * PADDING,
        spec_settings_rect(ox, oy, n).h == ITEM_H,
        n == 0 ==> spec_settings_rect(ox, oy, n).y == oy + PADDING + HEADER_H + DIVIDER_H,
        n >= 1 ==> spec_close_rect(ox, oy, n).y == spec_app_rect(ox, oy, n - 1).y + ITEM_H + DIVIDER_H,
        n >= 1 ==> spec_settings_rect(ox, oy, n).y == spec_close_rect(ox, oy, n).y + ITEM_H + DIVIDER_H,
        n >= 1 ==> spec_settings_rect(ox, oy, n).y + ITEM_H + PADDING == oy + spec_menu_size(n).1,
{
}

/// y of the divider under the app rows.
pub fn divider_y(origin_y: i32, app_count: usize) -> (r: i32)
    requires
        origin_fits(origin_y as int),
        count_fits(app_count as int),
    ensures
        r == origin_y + PADDING + HEADER_H + app_count * ITEM_H,
{
    origin_y + PADDING + HEADER_H + app_count as i32 * ITEM_H
}

pub open spec fn spec_menu_local(app_count: int, origin_x: int, origin_y: int, px: int, py: int) -> Option<(int, int)> {
    let (mw, mh) = spec_menu_size(app_count);
    let lx = px - origin_x;
    let ly = py - origin_y;
    if 0 <= lx < mw && 0 <= ly < mh {
        Some((lx, ly))
    } else {
        None
    }
}

/// Menu-local coordinates of the (floored) pointer, when it is over the menu.
pub fn pointer_to_menu_local(state: &State, origin_x: i32, origin_y: i32, px: i32, py: i32) -> (r: Option<(i32, i32)>)
    requires
        count_fits(state.spec_app_count()),
    ensures
        match r {
            Some(p) => spec_menu_local(state.spec_app_count(), origin_x as int, origin_y as int, px as int, py as int)
                == Some((p.0 as int, p.1 as int)),
            None => spec_menu_local(state.spec_app_count(), origin_x as int, origin_y as int, px as int, py as int) is None,
        },
{
    let (mw, mh) = menu_size(state.app_count());
    let lx = px as i64 - origin_x as i64;
    let ly = py as i64 - origin_y as i64;
    if lx >= 0 && ly >= 0 && lx < mw as i64 && ly < mh as i64 {
        Some((lx as i32, ly as i32))
    } else {
        None
    }
}

/// What lies under menu-local point `(lx, ly)` of a menu listing `app_count` apps.
pub open spec fn spec_local_hit(app_count: int, lx: int, ly: int) -> Hit {
    if exists|i: int| 0 <= i < app_count && rect_has(spec_app_rect(0, 0, i), lx, ly) {
        Hit::App((choose|i: int| 0 <= i < app_count && rect_has(spec_app_rect(0, 0, i), lx, ly)) as usize)
    } else if app_count > 0 && rect_has(spec_close_rect(0, 0, app_count), lx, ly) {
        Hit::CloseApp
    } else if rect_has(spec_settings_rect(0, 0, app_count), lx, ly) {
        Hit::OpenSettings
    } else {
        Hit::Nothing
    }
}

pub open spec fn spec_hit_test(app_count: int, origin_x: int, origin_y: int, px: int, py: int) -> Hit {
    match spec_menu_local(app_count, origin_x, origin_y, px, py) {
        Some((lx, ly)) => spec_local_hit(app_count, lx, ly),
        None => Hit::Nothing,
    }
}

/// App rows never overlap: at most one contains a point.
pub proof fn lemma_app_rows_disjoint(i: int, j: int, lx: int, ly: int)
    requires
        rect_has(spec_app_rect(0, 0, i), lx, ly),
        rect_has(spec_app_rect(0, 0, j), lx, ly),
        0 <= i,
        0 <= j,
        i * ITEM_H <= 0x3fff_ffff,
        j * ITEM_H <= 0x3fff_ffff,
    ensures
        i == j,
{
    assert(spec_app_rect(0, 0, i).y == PADDING + HEADER_H + i * ITEM_H);
    assert(spec_app_rect(0, 0, j).y == PADDING + HEADER_H + j * ITEM_H);
    if i < j {
        assert(i * ITEM_H + ITEM_H <= j * ITEM_H) by (nonlinear_arith)
            requires
                i < j,
        ;
    } else if j < i {
        assert(j * ITEM_H + ITEM_H <= i * ITEM_H) by (nonlinear_arith)
            requires
                j < i,
        ;
    }
}

/// Hit testing agrees with the drawn rows: an app hit names an existing app whose row
/// holds the point, and the close and settings hits lie in their rows.
pub proof fn lemma_hit_in_rows(n: int, ox: int, oy: int, px: int, py: int)
    requires
        count_fits(n),
        origin_fits(ox),
        origin_fits(oy),
    ensures
        spec_hit_test(n, ox, oy, px, py) matches Hit::App(i) ==> (i as int) < n && rect_has(
            spec_app_rect(ox, oy, i as int),
            px,
            py,
        ),
        spec_hit_test(n, ox, oy, px, py) == Hit::CloseApp ==> n > 0 && rect_has(spec_close_rect(ox, oy, n), px, py),
        spec_hit_test(n, ox, oy, px, py) == Hit::OpenSettings ==> rect_has(spec_settings_rect(ox, oy, n), px, py),
{
    let lx = px - ox;
    let ly = py - oy;
    if spec_menu_local(n, ox, oy, px, py) is Some {
        if exists|i: int| 0 <= i < n && rect_has(spec_app_rect(0, 0, i), lx, ly) {
            let i = choose|i: int| 0 <= i < n && rect_has(spec_app_rect(0, 0, i), lx, ly);
            assert(i * ITEM_H <= 0x3fff_0000) by (nonlinear_arith)
                requires
                    0 <= i < n,
                    n * ITEM_H <= 0x3fff_0000,
            ;
            assert(spec_hit_test(n, ox, oy, px, py) == Hit::App(i as usize));
        }
    }
}

/// The menu entry under the (floored) pointer for a menu at `(origin_x, origin_y)`.
pub fn hit_test(state: &State, origin_x: i32, origin_y: i32, px: i32, py: i32) -> (h: Hit)
    requires
        count_fits(state.spec_app_count()),
    ensures
        h == spec_hit_test(state.spec_app_count(), origin_x as int, origin_y as int, px as int, py as int),
{
    let app_count = state.app_count();
    let (lx, ly) = match pointer_to_menu_local(state, origin_x, origin_y, px, py) {
        Some(p) => p,
        None => return Hit::Nothing,
    };
    assert(spec_hit_test(app_count as int, origin_x as int, origin_y as int, px as int, py as int)
        == spec_local_hit(app_count as int, lx as int, ly as int));
    let mut i: usize = 0;
    while i < app_count
        invariant
            i <= app_count,
            app_count == state.spec_app_count(),
            count_fits(app_count as int),
            spec_hit_test(app_count as int, origin_x as int, origin_y as int, px as int, py as int)
                == spec_local_hit(app_count as int, lx as int, ly as int),
            forall|k: int| 0 <= k < i ==> !rect_has(spec_app_rect(0, 0, k), lx as int, ly as int),
        decreases app_count - i,
    {
        if app_rect(0, 0, i).contains(lx, ly) {
            proof {
                assert forall|k: int| 0 <= k < app_count && rect_has(spec_app_rect(0, 0, k), lx as int, ly as int) implies k == i by {
                    assert(k * ITEM_H <= 0x3fff_ffff) by (nonlinear_arith)
                        requires
                            0 <= k < app_count,
                            app_count * ITEM_H <= 0x3fff_0000,
                    ;
                    lemma_app_rows_disjoint(k, i as int, lx as int, ly as int);
                }
                let n = state.spec_app_count();
                let x = lx as int;
                let y = ly as int;
                assert(rect_has(spec_app_rect(0, 0, i as int), x, y));
                assert(exists|k: int| 0 <= k < n && rect_has(spec_app_rect(0, 0, k), x, y));
                let c = choose|k: int| 0 <= k < n && rect_has(spec_app_rect(0, 0, k), x, y);
                assert(c == i);
                assert(spec_local_hit(n, x, y) == Hit::App(i));
            }
            return Hit::App(i);
        }
        i = i + 1;
    }
    assert(!exists|k: int| 0 <= k < app_count && rect_has(spec_app_rect(0, 0, k), lx as int, ly as int));
    if app_count > 0 && close_rect(0, 0, app_count).contains(lx, ly) {
        return Hit::CloseApp;
    }
    if settings_rect(0, 0, app_count).contains(lx, ly) {
        Hit::OpenSettings
    } else {
        Hit::Nothing
    }
}

/// Row background: highlighted when hovered.
pub fn item_bg(hover: Option<Hit>, hit: Hit) -> (c: Rgba)
    ensures
        c == if hover == Some(hit) { theme::spec_button_hover() } else { theme::spec_window_bg() },
{
    if hover == Some(hit) {
        theme::button_hover()
    } else {
        theme::window_bg()
    }
}

pub open spec fn spec_unified_label(i18n: I18n, name: Seq<char>, focused: bool) -> Seq<char> {
    spec_menu_label(msg_text(i18n.lang, Msg::Main), name) + if focused { "  ●"@ } else { ""@ }
}

/// Menu row of a Wayland app.
pub fn app_label(i18n: I18n, app: &RunningApp, focused: bool) -> (r: String)
    ensures
        r@ == spec_unified_label(i18n, app.display_name@, focused),
{
    unified_label(i18n, app.display_name.as_str(), focused)
}

/// `"Main (name)"`, with a dot after the focused app.
pub fn unified_label(i18n: I18n, name: &str, focused: bool) -> (r: String)
    ensures
        r@ == spec_unified_label(i18n, name@, focused),
{
    let main = i18n.t(Msg::Main);
    let mut s = menu_label(main, name);
    if focused {
        s.append("  ●");
    } else {
        s.append("");
    }
    s
}


/// Colours of app row `i`: highlighted background when hovered; the focused app's label in
/// the accent colour.
pub fn app_row_style(hover: Option<Hit>, i: usize, focused: bool) -> (r: (Rgba, Rgba))
    ensures
        r.0 == if hover == Some(Hit::App(i)) { theme::spec_button_hover() } else { theme::spec_window_bg() },
        r.1 == if focused { theme::spec_accent() } else { theme::spec_text_inactive() },
{
    let bg = if hover == Some(Hit::App(i)) { theme::button_hover() } else { theme::window_bg() };
    let label = if focused { theme::accent() } else { theme::text_inactive() };
    (bg, label)
}

/// Number identifying the hovered entry in the menu picture's cache key.
pub open spec fn spec_hover_id(hover: Option<Hit>) -> int {
    match hover {
        None => 0,
        Some(Hit::Nothing) => 0,
        Some(Hit::OpenSettings) => 1,
        Some(Hit::CloseApp) => 2,
        Some(Hit::App(i)) => 3 + i,
    }
}

/// Cache key of the menu picture: hovered entry, app count, focus and language.
pub open spec fn spec_menu_cache_key(hover: Option<Hit>, apps: u64, focus: u64, lang: u8) -> u64 {
    (spec_hover_id(hover) as u64) | (apps << 8u64) | (focus << 16u64) | ((lang as u64) << 24u64)
}

pub fn menu_cache_key(hover: Option<Hit>, apps: u64, focus: u64, lang: u8) -> (r: u64)
    requires
        spec_hover_id(hover) <= u64::MAX,
    ensures
        r == spec_menu_cache_key(hover, apps, focus, lang),
{
    let h: u64 = match hover {
        None => 0,
        Some(Hit::Nothing) => 0,
        Some(Hit::OpenSettings) => 1,
        Some(Hit::CloseApp) => 2,
        Some(Hit::App(i)) => 3 + i as u64,
    };
    h | (apps << 8u64) | (focus << 16u64) | ((lang as u64) << 24u64)
}

} // verus!
