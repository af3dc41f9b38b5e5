//! Alt+Tab switcher geometry and app order.

use vstd::prelude::*;

use crate::apps::synced_mru;
use crate::geom::{max_int, tdiv};
use crate::order::{index_of, vec_position};
use crate::state::State;
use crate::settings::theme::{self, Rgba};
use crate::text::{char_is_alphanumeric, is_alnum};

verus! {

pub const TILE_W: i32 = 148;
pub const TILE_H: i32 = 128;
pub const TILE_GAP: i32 = 14;
pub const ICON_SIZE: i32 = 72;
pub const PANEL_PAD: i32 = 24;
pub const ROW_RADIUS: i32 = 10;

pub const BLINK_MS: u32 = 220;

#[derive(Clone, Copy, Debug, PartialEq, Eq, Structural)]
pub struct Rect {
    pub x: i32,
    pub y: i32,
    pub w: i32,
    pub h: i32,
}

/// Width and height of the row of `count` tiles with padding.
pub open spec fn spec_row_size(count: int) -> (int, int) {
    if count == 0 {
        (0, 0)
    } else {
        (count * TILE_W + (count - 1) * TILE_GAP + PANEL_PAD * 2, TILE_H + PANEL_PAD * 2)
    }
}

/// Largest app count whose row width fits an `i32`.
pub open spec fn row_fits(count: int) -> bool {
    count * (TILE_W + TILE_GAP) + 2 * PANEL_PAD <= i32::MAX
}

pub fn row_size(count: usize) -> (r: (i32, i32))
    requires
        row_fits(count as int),
    ensures
        (r.0 as int, r.1 as int) == spec_row_size(count as int),
{
    if count == 0 {
        return (0, 0);
    }
    let n = count as i32;
    let w = n * TILE_W + (n - 1) * TILE_GAP + PANEL_PAD * 2;
    let h = TILE_H + PANEL_PAD * 2;
    (w, h)
}

/// Top-left of the row centred on the output, never above or left of the origin.
pub open spec fn spec_row_origin(output_w: int, output_h: int, count: int) -> (int, int) {
    let (rw, rh) = spec_row_size(count);
    (max_int(tdiv(output_w - rw, 2), 0), max_int(tdiv(output_h - rh, 2), 0))
}

pub fn row_origin(output_w: i32, output_h: i32, count: usize) -> (r: (i32, i32))
    requires
        row_fits(count as int),
        output_w - spec_row_size(count as int).0 >= i32::MIN,
        output_h - spec_row_size(count as int).1 >= i32::MIN,
    ensures
        (r.0 as int, r.1 as int) == spec_row_origin(output_w as int, output_h as int, count as int),
{
    let (rw, rh) = row_size(count);
    let x = (output_w - rw) / 2;
    let y = (output_h - rh) / 2;
    (if x >= 0 { x } else { 0 }, if y >= 0 { y } else { 0 })
}

pub open spec fn spec_tile_rect(row_x: int, row_y: int, index: int) -> Rect {
    Rect {
        x: (row_x + PANEL_PAD + index * (TILE_W + TILE_GAP)) as i32,
        y: (row_y + PANEL_PAD) as i32,
        w: TILE_W,
        h: TILE_H,
    }
}

/// Tile `index` of the row whose top-left is `(row_x, row_y)`.
pub fn tile_rect(row_x: i32, row_y: i32, index: usize) -> (r: Rect)
    requires
        row_x + PANEL_PAD + index * (TILE_W + TILE_GAP) <= i32::MAX,
        row_x + PANEL_PAD <= i32::MAX,
        index * (TILE_W + TILE_GAP) <= i32::MAX,
        row_y + PANEL_PAD <= i32::MAX,
    ensures
        r == spec_tile_rect(row_x as int, row_y as int, index as int),
{
    assert(TILE_W + TILE_GAP == 162);
    assert(index as int <= i32::MAX) by (nonlinear_arith)
        requires
            index * 162 <= i32::MAX,
    ;
    let i = index as i32;
    assert(i as int == index as int);
    let step = i * (TILE_W + TILE_GAP);
    let x = row_x + PANEL_PAD + step;
    let y = row_y + PANEL_PAD;
    Rect { x, y, w: TILE_W, h: TILE_H }
}

pub open spec fn spec_icon_rect(tile: Rect) -> Rect {
    Rect {
        x: (tile.x + tdiv(tile.w - ICON_SIZE, 2)) as i32,
        y: (tile.y + 12) as i32,
        w: ICON_SIZE,
        h: ICON_SIZE,
    }
}

/// The icon square centred horizontally in `tile`, 12 px below its top.
pub fn icon_rect(tile: Rect) -> (r: Rect)
    requires
        tile.w - ICON_SIZE >= i32::MIN,
        i32::MIN <= tile.x + tdiv(tile.w - ICON_SIZE, 2) <= i32::MAX,
        tile.y + 12 <= i32::MAX,
    ensures
        r == spec_icon_rect(tile),
{
    let x = tile.x + (tile.w - ICON_SIZE) / 2;
    let y = tile.y + 12;
    Rect { x, y, w: ICON_SIZE, h: ICON_SIZE }
}

/// The selection highlight is on during even `BLINK_MS` periods.
pub fn blink_phase(time_ms: u32) -> (on: bool)
    ensures
        on == ((time_ms / BLINK_MS) % 2 == 0),
{
    (time_ms / BLINK_MS) % 2 == 0
}

/// First alphanumeric character of `s`, if any.
pub open spec fn first_alnum(s: Seq<char>) -> Option<char>
    decreases s.len(),
{
    if s.len() == 0 {
        None
    } else if is_alnum(s[0]) {
        Some(s[0])
    } else {
        first_alnum(s.drop_first())
    }
}

pub open spec fn ascii_upper(c: char) -> char {
    if 'a' <= c && c <= 'z' {
        ((c as u32) - 32) as char
    } else {
        c
    }
}

/// The letter drawn on an app's tile: its first alphanumeric character in ASCII upper case, or `?`.
pub fn app_icon_letter(name: &str) -> (c: char)
    ensures
        c == match first_alnum(name@) {
            Some(a) => ascii_upper(a),
            None => '?',
        },
{
    let n = name.unicode_len();
    let mut i: usize = 0;
    assert(name@.skip(0) =~= name@);
    while i < n
        invariant
            n == name@.len(),
            i <= n,
            first_alnum(name@) == first_alnum(name@.skip(i as int)),
        decreases n - i,
    {
        let c = name.get_char(i);
        assert(name@.skip(i as int)[0] == c);
        if char_is_alphanumeric(c) {
            return to_ascii_upper(c);
        }
        assert(name@.skip(i as int).drop_first() =~= name@.skip(i + 1));
        i = i + 1;
    }
    assert(name@.skip(n as int).len() == 0);
    '?'
}

fn to_ascii_upper(c: char) -> (r: char)
    ensures
        r == ascii_upper(c),
{
    if 'a' <= c && c <= 'z' {
        let code: u32 = c as u32;
        let upper: u8 = (code - 32) as u8;
        upper as char
    } else {
        c
    }
}

/// Alt+Tab order: the MRU list completed with every app, rotated so the focused app
/// (`current`) comes first; if it is missing, it is put in front.
pub open spec fn spec_ordered(mru: Seq<usize>, count: int, current: usize) -> Seq<usize> {
    if count == 0 {
        seq![]
    } else {
        let order = synced_mru(mru, count);
        let pos = index_of(order, current);
        if pos >= 0 {
            order.skip(pos) + order.take(pos)
        } else {
            seq![current] + order
        }
    }
}

/// The app the switcher starts from: the focused app, clamped to the list.
pub open spec fn switcher_current(s: State) -> usize {
    crate::geom::min_int(s.spec_unified_focus_index(), s.spec_app_count() - 1) as usize
}

pub open spec fn spec_ordered_indices(s: State) -> Seq<usize> {
    spec_ordered(s.app_mru@, s.spec_app_count(), switcher_current(s))
}

pub fn ordered_indices(state: &State) -> (r: Vec<usize>)
    requires
        state.spec_app_count() <= usize::MAX,
    ensures
        r@ == spec_ordered_indices(*state),
{
    let count = state.app_count();
    if count == 0 {
        return Vec::new();
    }
    let f = state.unified_focus_index();
    let current = if f <= count - 1 { f } else { count - 1 };
    let order = crate::apps::synced_order(&state.app_mru, count);
    proof {
        crate::order::lemma_index_of(order@, current);
    }
    match vec_position(&order, current) {
        Some(pos) => {
            let mut out: Vec<usize> = Vec::new();
            let mut i: usize = pos;
            while i < order.len()
                invariant
                    pos <= i <= order@.len(),
                    out@ == order@.subrange(pos as int, i as int),
                decreases order@.len() - i,
            {
                out.push(order[i]);
                i = i + 1;
            }
            let mut j: usize = 0;
            while j < pos
                invariant
                    j <= pos,
                    (pos as int) <= order@.len(),
                    out@ == order@.skip(pos as int) + order@.take(j as int),
                decreases pos - j,
            {
                out.push(order[j]);
                j = j + 1;
            }
            out
        },
        None => {
            let mut out: Vec<usize> = Vec::new();
            out.push(current);
            let mut i: usize = 0;
            while i < order.len()
                invariant
                    i <= order@.len(),
                    out@ == seq![current] + order@.take(i as int),
                decreases order@.len() - i,
            {
                out.push(order[i]);
                i = i + 1;
            }
            assert(order@.take(order@.len() as int) =~= order@);
            out
        },
    }
}

} // verus!

verus! {

use crate::apps::lemma_synced_mru_is_perm;
use crate::order::{filter_below, is_perm_of_range, lemma_filter_below_all, lemma_index_of, lemma_missing_none, no_dups};

/// Rotating a sequence keeps it a permutation of the same range.
pub proof fn lemma_rotation_perm(a: Seq<usize>, p: int, n: int)
    requires
        is_perm_of_range(a, n),
        0 <= p < a.len(),
    ensures
        is_perm_of_range(a.skip(p) + a.take(p), n),
        (a.skip(p) + a.take(p))[0] == a[p],
{
    let r = a.skip(p) + a.take(p);
    let m = a.len() - p;
    assert forall|i: int| 0 <= i < r.len() implies r[i] == a[if i < m { i + p } else { i - m }] by {
        if i < m {
            assert(r[i] == a.skip(p)[i]);
        } else {
            assert(r[i] == a.take(p)[i - m]);
        }
    }
    assert forall|i: int, j: int| 0 <= i < r.len() && 0 <= j < r.len() && i != j implies r[i] != r[j] by {
        let ii = if i < m { i + p } else { i - m };
        let jj = if j < m { j + p } else { j - m };
        assert(r[i] == a[ii] && r[j] == a[jj]);
    }
    assert forall|i: int| 0 <= i < r.len() implies (r[i] as int) < n by {
        let ii = if i < m { i + p } else { i - m };
        assert(r[i] == a[ii]);
    }
    assert forall|k: int| 0 <= k < n implies #[trigger] r.contains(k as usize) by {
        assert(a.contains(k as usize));
        let t = choose|t: int| 0 <= t < a.len() && a[t] == k as usize;
        if t >= p {
            assert(r[t - p] == a[t]);
        } else {
            assert(r[t + m] == a[t]);
        }
    }
}

/// The switcher lists every app exactly once, starting with the focused one.
pub proof fn lemma_ordered_indices(s: State)
    requires
        no_dups(s.app_mru@),
        0 < s.spec_app_count() <= usize::MAX,
    ensures
        is_perm_of_range(spec_ordered_indices(s), s.spec_app_count()),
        spec_ordered_indices(s)[0] == switcher_current(s),
{
    let count = s.spec_app_count();
    let current = switcher_current(s);
    let order = synced_mru(s.app_mru@, count);
    lemma_synced_mru_is_perm(s.app_mru@, count);
    assert(0 <= s.spec_unified_focus_index());
    assert((current as int) < count);
    assert(order.contains(current));
    lemma_index_of(order, current);
    let pos = index_of(order, current);
    lemma_rotation_perm(order, pos, count);
}


/// A tile label: the name itself when it has at most `max` characters, else its first
/// `max - 1` characters followed by an ellipsis.
pub open spec fn spec_truncate_label(name: Seq<char>, max: int) -> Seq<char> {
    if name.len() <= max {
        name
    } else {
        name.take(max_int(max - 1, 0)) + seq!['…']
    }
}

pub fn truncate_label(name: &str, max: usize) -> (r: String)
    ensures
        r@ == spec_truncate_label(name@, max as int),
{
    let n = name.unicode_len();
    if n <= max {
        return name.to_owned();
    }
    let keep = if max >= 1 { max - 1 } else { 0 };
    let mut s = name.substring_char(0, keep).to_owned();
    proof {
        reveal_strlit("…");
    }
    s.append("…");
    assert(s@ =~= name@.take(keep as int) + seq!['…']);
    s
}

/// Colours of a switcher tile: background, border and label. The selected tile blinks
/// between a highlighted background with an accent border and white label, and the plain
/// background with a white border and accent label.
pub open spec fn spec_tile_style(selected: bool, blink: bool) -> (Rgba, Rgba, Rgba) {
    let bg = if selected && blink { theme::spec_tile_hover() } else { theme::spec_tile_bg() };
    let border = if selected {
        if blink { theme::spec_accent() } else { theme::spec_text() }
    } else {
        theme::spec_border()
    };
    let label = if selected && blink {
        theme::spec_text()
    } else if selected {
        theme::spec_accent()
    } else {
        theme::spec_text_inactive()
    };
    (bg, border, label)
}

pub fn tile_style(selected: bool, blink: bool) -> (r: (Rgba, Rgba, Rgba))
    ensures
        r == spec_tile_style(selected, blink),
{
    let bg = if selected && blink { theme::tile_hover() } else { theme::tile_bg() };
    let border = if selected {
        if blink { theme::accent() } else { theme::text() }
    } else {
        theme::border()
    };
    let label = if selected && blink {
        theme::text()
    } else if selected {
        theme::accent()
    } else {
        theme::text_inactive()
    };
    (bg, border, label)
}

/// Cache key of the switcher picture: selection, app count, blink phase, focus and MRU
/// length packed in one word.
pub open spec fn spec_switcher_cache_key(slot: u64, apps: u64, blink: bool, focus: u64, mru_len: u64) -> u64 {
    slot | (apps << 8u64) | ((if blink { 1u64 } else { 0u64 }) << 16u64) | (focus << 24u64) | (mru_len << 32u64)
}

pub fn switcher_cache_key(slot: u64, apps: u64, blink: bool, focus: u64, mru_len: u64) -> (r: u64)
    ensures
        r == spec_switcher_cache_key(slot, apps, blink, focus, mru_len),
{
    let b: u64 = if blink { 1 } else { 0 };
    slot | (apps << 8u64) | (b << 16u64) | (focus << 24u64) | (mru_len << 32u64)
}

/// When the MRU history holds every app once (as the state keeps it), the switcher lists
/// the apps in history order rotated to the app it starts from: the entry at slot `k` is
/// the app `k` places after it in the history, so slot 1 is the most recently used other
/// app.
pub proof fn lemma_switcher_follows_mru(s: State, p: int)
    requires
        0 < s.spec_app_count() <= usize::MAX,
        is_perm_of_range(s.app_mru@, s.spec_app_count()),
        s.app_mru@.len() == s.spec_app_count(),
        0 <= p < s.app_mru@.len(),
        s.app_mru@[p] == switcher_current(s),
    ensures
        spec_ordered_indices(s).len() == s.spec_app_count(),
        forall|k: int|
            0 <= k < s.spec_app_count() ==> #[trigger] spec_ordered_indices(s)[k] == s.app_mru@[(p + k)
                % s.spec_app_count()],
{
    let n = s.spec_app_count();
    let mru = s.app_mru@;
    let current = switcher_current(s);
    lemma_filter_below_all(mru, n);
    lemma_missing_none(filter_below(mru, n), n);
    assert(synced_mru(mru, n) =~= mru);
    lemma_synced_mru_is_perm(mru, n);
    lemma_index_of(mru, current);
    let pos = index_of(mru, current);
    assert(pos == p) by {
        assert(mru[pos] == current);
        if pos != p {
            assert(mru[pos] != mru[p]);
        }
    }
    let r = spec_ordered_indices(s);
    assert(r == mru.skip(p) + mru.take(p));
    assert forall|k: int| 0 <= k < n implies #[trigger] r[k] == mru[(p + k) % n] by {
        if k < n - p {
            assert(r[k] == mru.skip(p)[k]);
            assert((p + k) % n == p + k) by (nonlinear_arith)
                requires
                    0 <= p + k < n,
            ;
        } else {
            assert(r[k] == mru.take(p)[k - (n - p)]);
            assert((p + k) % n == p + k - n) by (nonlinear_arith)
                requires
                    n <= p + k < 2 * n,
            ;
        }
    }
}

} // verus!
