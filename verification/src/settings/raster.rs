//! A small software canvas (BGRA8888 in memory, the `Argb8888` DRM layout) with the shape
//! primitives the overlays are drawn with. Every primitive clips to the canvas.

use vstd::prelude::*;

use super::theme::Rgba;
use crate::geom::{max_int, min_int, tdiv};

verus! {

pub struct Canvas {
    pub pixels: Vec<u8>,
    pub w: i32,
    pub h: i32,
}

/// Byte offset of pixel `(x, y)` in a canvas `w` pixels wide.
pub open spec fn idx(w: int, x: int, y: int) -> int {
    (y * w + x) * 4
}

/// The colour stored at byte offset `i` (blue, green, red, alpha in memory).
pub open spec fn pixel_of(s: Seq<u8>, i: int) -> Rgba {
    Rgba { r: s[i + 2], g: s[i + 1], b: s[i], a: s[i + 3] }
}

/// `new` is `old` with each pixel `(x, y)` of the `w` x `h` canvas repainted with `f(x, y)`
/// where that is `Some`, and kept where it is `None`.
pub open spec fn painted(new: Seq<u8>, old: Seq<u8>, w: int, h: int, f: spec_fn(int, int) -> Option<Rgba>) -> bool {
    &&& new.len() == old.len()
    &&& forall|x: int, y: int|
        #![trigger pixel_of(new, idx(w, x, y))]
        0 <= x < w && 0 <= y < h ==> pixel_of(new, idx(w, x, y)) == match f(x, y) {
            Some(c) => c,
            None => pixel_of(old, idx(w, x, y)),
        }
}

/// Paint `c` where `region` holds.
pub open spec fn solid(region: spec_fn(int, int) -> bool, c: Rgba) -> spec_fn(int, int) -> Option<Rgba> {
    |x: int, y: int| if region(x, y) { Some(c) } else { None }
}

impl Canvas {
    /// Pixel buffer of exactly `w * h` pixels, whose byte offsets fit an `i32`.
    pub open spec fn wf(&self) -> bool {
        &&& 0 <= self.w
        &&& 0 <= self.h
        &&& self.w * self.h * 4 <= i32::MAX
        &&& self.pixels@.len() == self.w * self.h * 4
    }

    /// The colour of pixel `(x, y)`.
    pub open spec fn px(&self, x: int, y: int) -> Rgba {
        pixel_of(self.pixels@, idx(self.w as int, x, y))
    }

    pub open spec fn in_bounds(&self, x: int, y: int) -> bool {
        0 <= x < self.w && 0 <= y < self.h
    }
}

/// Offsets of in-bounds pixels lie inside the buffer, four bytes apart at least.
pub proof fn lemma_idx(w: int, h: int, x: int, y: int)
    requires
        0 <= x < w,
        0 <= y < h,
    ensures
        0 <= idx(w, x, y),
        idx(w, x, y) + 4 <= w * h * 4,
        idx(w, x, y) % 4 == 0,
{
    assert(y * w + x < w * h) by (nonlinear_arith)
        requires
            0 <= x < w,
            0 <= y < h,
    ;
    assert(0 <= y * w) by (nonlinear_arith)
        requires
            0 <= y,
            0 <= w,
    ;
}

/// Distinct in-bounds pixels have disjoint bytes.
pub proof fn lemma_idx_distinct(w: int, h: int, x1: int, y1: int, x2: int, y2: int)
    requires
        0 <= x1 < w,
        0 <= y1 < h,
        0 <= x2 < w,
        0 <= y2 < h,
        x1 != x2 || y1 != y2,
    ensures
        idx(w, x1, y1) + 4 <= idx(w, x2, y2) || idx(w, x2, y2) + 4 <= idx(w, x1, y1),
{
    if y1 == y2 {
    } else if y1 < y2 {
        assert(y1 * w + x1 < y2 * w + x2) by (nonlinear_arith)
            requires
                0 <= x1 < w,
                0 <= x2,
                y1 < y2,
        ;
    } else {
        assert(y2 * w + x2 < y1 * w + x1) by (nonlinear_arith)
            requires
                0 <= x2 < w,
                0 <= x1,
                y2 < y1,
        ;
    }
}

/// Painting with `f1` then with `f2` paints with `g`, the later painting winning.
pub proof fn lemma_paint_then(
    s0: Seq<u8>,
    s1: Seq<u8>,
    s2: Seq<u8>,
    w: int,
    h: int,
    f1: spec_fn(int, int) -> Option<Rgba>,
    f2: spec_fn(int, int) -> Option<Rgba>,
    g: spec_fn(int, int) -> Option<Rgba>,
)
    requires
        painted(s1, s0, w, h, f1),
        painted(s2, s1, w, h, f2),
        forall|x: int, y: int| 0 <= x < w && 0 <= y < h ==> #[trigger] g(x, y) == (if f2(x, y) is Some {
            f2(x, y)
        } else {
            f1(x, y)
        }),
    ensures
        painted(s2, s0, w, h, g),
{
    assert forall|x: int, y: int| 0 <= x < w && 0 <= y < h implies #[trigger] pixel_of(s2, idx(w, x, y)) == match g(x, y) {
        Some(c) => c,
        None => pixel_of(s0, idx(w, x, y)),
    } by {
        assert(pixel_of(s1, idx(w, x, y)) == match f1(x, y) {
            Some(c) => c,
            None => pixel_of(s0, idx(w, x, y)),
        });
        assert(g(x, y) == (if f2(x, y) is Some { f2(x, y) } else { f1(x, y) }));
    }
}

/// Painting nothing keeps the canvas.
pub proof fn lemma_paint_nothing(s: Seq<u8>, w: int, h: int, g: spec_fn(int, int) -> Option<Rgba>)
    requires
        forall|x: int, y: int| 0 <= x < w && 0 <= y < h ==> #[trigger] g(x, y) is None,
    ensures
        painted(s, s, w, h, g),
{
    assert forall|x: int, y: int| 0 <= x < w && 0 <= y < h implies #[trigger] pixel_of(s, idx(w, x, y)) == match g(x, y) {
        Some(c) => c,
        None => pixel_of(s, idx(w, x, y)),
    } by {
        assert(g(x, y) is None);
    }
}

/// Painting with `f`, where `f` and `g` agree on the canvas, is painting with `g`.
pub proof fn lemma_paint_same(new: Seq<u8>, old: Seq<u8>, w: int, h: int, f: spec_fn(int, int) -> Option<Rgba>, g: spec_fn(int, int) -> Option<Rgba>)
    requires
        painted(new, old, w, h, f),
        forall|x: int, y: int| 0 <= x < w && 0 <= y < h ==> #[trigger] g(x, y) == f(x, y),
    ensures
        painted(new, old, w, h, g),
{
    assert forall|x: int, y: int| 0 <= x < w && 0 <= y < h implies #[trigger] pixel_of(new, idx(w, x, y)) == match g(x, y) {
        Some(c) => c,
        None => pixel_of(old, idx(w, x, y)),
    } by {
        assert(g(x, y) == f(x, y));
    }
}

/// The single pixel `(px, py)`.
pub open spec fn point(px: int, py: int) -> spec_fn(int, int) -> bool {
    |x: int, y: int| x == px && y == py
}

/// The rectangle `[rx, rx + rw) x [ry, ry + rh)`.
pub open spec fn rect_region(rx: int, ry: int, rw: int, rh: int) -> spec_fn(int, int) -> bool {
    |x: int, y: int| rx <= x < rx + rw && ry <= y < ry + rh
}

impl Canvas {
    /// A `w` x `h` canvas of transparent black.
    pub fn new(w: i32, h: i32) -> (c: Self)
        requires
            0 <= w,
            0 <= h,
            w * h * 4 <= i32::MAX,
        ensures
            c.wf(),
            c.w == w,
            c.h == h,
            forall|i: int| 0 <= i < c.pixels@.len() ==> c.pixels@[i] == 0,
    {
        assert(0 <= w * h) by (nonlinear_arith)
            requires
                0 <= w,
                0 <= h,
        ;
        let n = (w * h * 4) as usize;
        let mut pixels: Vec<u8> = Vec::new();
        let mut i: usize = 0;
        while i < n
            invariant
                i <= n,
                pixels@.len() == i,
                forall|j: int| 0 <= j < i ==> pixels@[j] == 0,
            decreases n - i,
        {
            pixels.push(0);
            i = i + 1;
        }
        Canvas { pixels, w, h }
    }

    /// Writes `c` at `(x, y)`; nothing outside the canvas.
    pub fn put(&mut self, x: i32, y: i32, c: Rgba)
        requires
            old(self).wf(),
        ensures
            final(self).wf(),
            final(self).w == old(self).w,
            final(self).h == old(self).h,
            painted(final(self).pixels@, old(self).pixels@, old(self).w as int, old(self).h as int, solid(point(x as int, y as int), c)),
    {
        let ghost w = self.w as int;
        let ghost h = self.h as int;
        let ghost s0 = self.pixels@;
        if x < 0 || y < 0 || x >= self.w || y >= self.h {
            proof {
                lemma_paint_nothing(s0, w, h, solid(point(x as int, y as int), c));
            }
            return;
        }
        proof {
            lemma_idx(w, h, x as int, y as int);
        }
        let i = ((y * self.w + x) * 4) as usize;
        if i + 3 < self.pixels.len() {
            self.pixels.set(i, c.b);
            self.pixels.set(i + 1, c.g);
            self.pixels.set(i + 2, c.r);
            self.pixels.set(i + 3, c.a);
        }
        let ghost s1 = self.pixels@;
        proof {
            assert forall|px: int, py: int| 0 <= px < w && 0 <= py < h implies #[trigger] pixel_of(s1, idx(w, px, py))
                == match solid(point(x as int, y as int), c)(px, py) {
                Some(cc) => cc,
                None => pixel_of(s0, idx(w, px, py)),
            } by {
                if px == x && py == y {
                } else {
                    lemma_idx(w, h, px, py);
                    lemma_idx_distinct(w, h, px, py, x as int, y as int);
                }
            }
        }
    }

    /// Fills the rectangle `[x, x + w) x [y, y + h)` (clipped) with `c`.
    pub fn fill_rect(&mut self, x: i32, y: i32, w: i32, h: i32, c: Rgba)
        requires
            old(self).wf(),
            x + w <= i32::MAX + 1,
            y + h <= i32::MAX + 1,
        ensures
            final(self).wf(),
            final(self).w == old(self).w,
            final(self).h == old(self).h,
            painted(
                final(self).pixels@,
                old(self).pixels@,
                old(self).w as int,
                old(self).h as int,
                solid(rect_region(x as int, y as int, w as int, h as int), c),
            ),
    {
        let ghost cw = self.w as int;
        let ghost ch = self.h as int;
        let ghost s0 = self.pixels@;
        proof {
            lemma_paint_nothing(s0, cw, ch, solid(rect_region(x as int, y as int, w as int, 0), c));
        }
        let mut dy: i32 = 0;
        while dy < h
            invariant
                self.wf(),
                self.w == cw,
                self.h == ch,
                0 <= dy,
                dy <= h || dy == 0,
                x + w <= i32::MAX + 1,
                y + h <= i32::MAX + 1,
                painted(self.pixels@, s0, cw, ch, solid(rect_region(x as int, y as int, w as int, dy as int), c)),
            decreases h - dy,
        {
            let mut dx: i32 = 0;
            while dx < w
                invariant
                    self.wf(),
                    self.w == cw,
                    self.h == ch,
                    0 <= dx,
                    dx <= w || dx == 0,
                    0 <= dy < h,
                    x + w <= i32::MAX + 1,
                    y + h <= i32::MAX + 1,
                    painted(
                        self.pixels@,
                        s0,
                        cw,
                        ch,
                        |px: int, py: int|
                            if rect_region(x as int, y as int, w as int, dy as int)(px, py) || (py == y + dy && x <= px
                                < x + dx) {
                                Some(c)
                            } else {
                                None
                            },
                    ),
                decreases w - dx,
            {
                let ghost s1 = self.pixels@;
                self.put(x + dx, y + dy, c);
                proof {
                    let f1 = |px: int, py: int|
                        if rect_region(x as int, y as int, w as int, dy as int)(px, py) || (py == y + dy && x <= px < x
                            + dx) {
                            Some(c)
                        } else {
                            None
                        };
                    let g = |px: int, py: int|
                        if rect_region(x as int, y as int, w as int, dy as int)(px, py) || (py == y + dy && x <= px < x
                            + dx + 1) {
                            Some(c)
                        } else {
                            None
                        };
                    lemma_paint_then(s0, s1, self.pixels@, cw, ch, f1, solid(point(x + dx, y + dy), c), g);
                }
                dx = dx + 1;
            }
            proof {
                let f = |px: int, py: int|
                    if rect_region(x as int, y as int, w as int, dy as int)(px, py) || (py == y + dy && x <= px < x
                        + dx) {
                        Some(c)
                    } else {
                        None
                    };
                lemma_paint_same(
                    self.pixels@,
                    s0,
                    cw,
                    ch,
                    f,
                    solid(rect_region(x as int, y as int, w as int, dy + 1), c),
                );
            }
            dy = dy + 1;
        }
        proof {
            if h <= 0 {
                lemma_paint_same(
                    self.pixels@,
                    s0,
                    cw,
                    ch,
                    solid(rect_region(x as int, y as int, w as int, 0), c),
                    solid(rect_region(x as int, y as int, w as int, h as int), c),
                );
            }
        }
    }
}


/// `f` paints nothing outside the box `[x0, x0 + bw) x [y0, y0 + bh)`.
pub open spec fn boxed(f: spec_fn(int, int) -> Option<Rgba>, x0: int, y0: int, bw: int, bh: int) -> bool {
    forall|a: int, b: int|
        !(x0 <= a < x0 + bw && y0 <= b < y0 + bh) ==> #[trigger] f(a, b) is None
}

/// The part of `f` a row-by-row scan of its box has painted: rows before `y0 + dy`, and the
/// first `dx` columns of row `y0 + dy`.
pub open spec fn scanned(f: spec_fn(int, int) -> Option<Rgba>, x0: int, y0: int, dx: int, dy: int) -> spec_fn(
    int,
    int,
) -> Option<Rgba> {
    |a: int, b: int|
        if b < y0 + dy || (b == y0 + dy && a < x0 + dx) {
            f(a, b)
        } else {
            None
        }
}

pub proof fn lemma_scan_start(s: Seq<u8>, cw: int, ch: int, f: spec_fn(int, int) -> Option<Rgba>, x0: int, y0: int, bw: int, bh: int)
    requires
        boxed(f, x0, y0, bw, bh),
    ensures
        painted(s, s, cw, ch, scanned(f, x0, y0, 0, 0)),
{
    assert forall|a: int, b: int| 0 <= a < cw && 0 <= b < ch implies #[trigger] scanned(f, x0, y0, 0, 0)(a, b) is None by {
        if b < y0 || (b == y0 && a < x0) {
            assert(f(a, b) is None);
        }
    }
    lemma_paint_nothing(s, cw, ch, scanned(f, x0, y0, 0, 0));
}

pub proof fn lemma_scan_step(
    s0: Seq<u8>,
    s1: Seq<u8>,
    s2: Seq<u8>,
    cw: int,
    ch: int,
    f: spec_fn(int, int) -> Option<Rgba>,
    g: spec_fn(int, int) -> Option<Rgba>,
    x0: int,
    y0: int,
    dx: int,
    dy: int,
)
    requires
        painted(s1, s0, cw, ch, scanned(f, x0, y0, dx, dy)),
        painted(s2, s1, cw, ch, g),
        forall|a: int, b: int|
            0 <= a < cw && 0 <= b < ch ==> #[trigger] g(a, b) == (if a == x0 + dx && b == y0 + dy {
                f(a, b)
            } else {
                None
            }),
    ensures
        painted(s2, s0, cw, ch, scanned(f, x0, y0, dx + 1, dy)),
{
    lemma_paint_then(s0, s1, s2, cw, ch, scanned(f, x0, y0, dx, dy), g, scanned(f, x0, y0, dx + 1, dy));
}

pub proof fn lemma_scan_row(
    s: Seq<u8>,
    s0: Seq<u8>,
    cw: int,
    ch: int,
    f: spec_fn(int, int) -> Option<Rgba>,
    x0: int,
    y0: int,
    bw: int,
    bh: int,
    dy: int,
)
    requires
        boxed(f, x0, y0, bw, bh),
        painted(s, s0, cw, ch, scanned(f, x0, y0, bw, dy)),
    ensures
        painted(s, s0, cw, ch, scanned(f, x0, y0, 0, dy + 1)),
{
    assert forall|a: int, b: int| 0 <= a < cw && 0 <= b < ch implies #[trigger] scanned(f, x0, y0, 0, dy + 1)(a, b)
        == scanned(f, x0, y0, bw, dy)(a, b) by {
        if b == y0 + dy && a >= x0 + bw {
            assert(f(a, b) is None);
        }
    }
    lemma_paint_same(s, s0, cw, ch, scanned(f, x0, y0, bw, dy), scanned(f, x0, y0, 0, dy + 1));
}

pub proof fn lemma_scan_end(
    s: Seq<u8>,
    s0: Seq<u8>,
    cw: int,
    ch: int,
    f: spec_fn(int, int) -> Option<Rgba>,
    x0: int,
    y0: int,
    bw: int,
    bh: int,
)
    requires
        boxed(f, x0, y0, bw, bh),
        painted(s, s0, cw, ch, scanned(f, x0, y0, 0, bh)),
    ensures
        painted(s, s0, cw, ch, f),
{
    assert forall|a: int, b: int| 0 <= a < cw && 0 <= b < ch implies #[trigger] f(a, b) == scanned(f, x0, y0, 0, bh)(a, b) by {
        if !(b < y0 + bh) {
            assert(f(a, b) is None);
        }
    }
    lemma_paint_same(s, s0, cw, ch, scanned(f, x0, y0, 0, bh), f);
}

/// The radius actually used: at most half the width and half the height, never negative.
pub open spec fn eff_radius(r: int, w: int, h: int) -> int {
    max_int(min_int(min_int(r, tdiv(w, 2)), tdiv(h, 2)), 0)
}

/// Offset `(dx, dy)` inside a `w` x `h` box lies within its corners rounded with radius `r`.
pub open spec fn rounded_inside(dx: int, dy: int, w: int, h: int, r: int) -> bool {
    if dx < r && dy < r {
        (dx - r) * (dx - r) + (dy - r) * (dy - r) <= r * r
    } else if dx >= w - r && dy < r {
        (dx - (w - r - 1)) * (dx - (w - r - 1)) + (dy - r) * (dy - r) <= r * r
    } else if dx < r && dy >= h - r {
        (dx - r) * (dx - r) + (dy - (h - r - 1)) * (dy - (h - r - 1)) <= r * r
    } else if dx >= w - r && dy >= h - r {
        (dx - (w - r - 1)) * (dx - (w - r - 1)) + (dy - (h - r - 1)) * (dy - (h - r - 1)) <= r * r
    } else {
        true
    }
}

/// The rounded rectangle at `(x, y)` of size `w` x `h` and corner radius `r`.
pub open spec fn rounded_region(x: int, y: int, w: int, h: int, r: int) -> spec_fn(int, int) -> bool {
    |a: int, b: int| x <= a < x + w && y <= b < y + h && rounded_inside(a - x, b - y, w, h, eff_radius(r, w, h))
}

proof fn lemma_sq_flip(a: int, r: int)
    ensures
        (a - r) * (a - r) == (r - a) * (r - a),
{
    assert((a - r) * (a - r) == (r - a) * (r - a)) by (nonlinear_arith);
}

/// Within a box whose corners fit (`2 * r` at most its width and height), the rounded
/// shape is the same mirrored left-right and top-bottom.
proof fn lemma_rounded_inside_mirror(dx: int, dy: int, w: int, h: int, r: int)
    requires
        0 <= r,
        2 * r <= w,
        2 * r <= h,
    ensures
        rounded_inside(dx, dy, w, h, r) == rounded_inside(w - 1 - dx, dy, w, h, r),
        rounded_inside(dx, dy, w, h, r) == rounded_inside(dx, h - 1 - dy, w, h, r),
{
    lemma_sq_flip(dx, r);
    lemma_sq_flip(w - 1 - dx, r);
    lemma_sq_flip(dy, r);
    lemma_sq_flip(h - 1 - dy, r);
    assert((w - 1 - dx) - (w - r - 1) == r - dx);
    assert(dx - (w - r - 1) == r - (w - 1 - dx));
    assert((h - 1 - dy) - (h - r - 1) == r - dy);
    assert(dy - (h - r - 1) == r - (h - 1 - dy));
}

/// The shape of a rounded rectangle: it is mirror-symmetric within its box (left-right and
/// top-bottom); with an effective radius of 0 it is the plain rectangle; with a radius of 1
/// or more its four corner pixels are left out.
pub proof fn lemma_rounded_region_shape(x: int, y: int, w: int, h: int, r: int, a: int, b: int)
    ensures
        rounded_region(x, y, w, h, r)(a, b) == rounded_region(x, y, w, h, r)(2 * x + w - 1 - a, b),
        rounded_region(x, y, w, h, r)(a, b) == rounded_region(x, y, w, h, r)(a, 2 * y + h - 1 - b),
        eff_radius(r, w, h) == 0 ==> rounded_region(x, y, w, h, r)(a, b) == rect_region(x, y, w, h)(a, b),
        eff_radius(r, w, h) >= 1 ==> {
            &&& !rounded_region(x, y, w, h, r)(x, y)
            &&& !rounded_region(x, y, w, h, r)(x + w - 1, y)
            &&& !rounded_region(x, y, w, h, r)(x, y + h - 1)
            &&& !rounded_region(x, y, w, h, r)(x + w - 1, y + h - 1)
        },
{
    let rr = eff_radius(r, w, h);
    if w >= 0 && h >= 0 {
        assert(2 * rr <= w && 2 * rr <= h && 0 <= rr);
        lemma_rounded_inside_mirror(a - x, b - y, w, h, rr);
        assert((2 * x + w - 1 - a) - x == w - 1 - (a - x));
        assert((2 * y + h - 1 - b) - y == h - 1 - (b - y));
        if rr >= 1 {
            assert(rr * rr >= 1) by (nonlinear_arith)
                requires
                    rr >= 1,
            ;
            lemma_sq_flip(0, rr);
            assert((w - 1) - (w - rr - 1) == rr);
            assert((h - 1) - (h - rr - 1) == rr);
            assert(!rounded_inside(0, 0, w, h, rr));
            assert(!rounded_inside(w - 1, 0, w, h, rr));
            assert(!rounded_inside(0, h - 1, w, h, rr));
            assert(!rounded_inside(w - 1, h - 1, w, h, rr));
        }
    }
}

proof fn lemma_sq(a: int, r: int)
    requires
        -r <= a <= r,
        0 <= r <= 32767,
    ensures
        0 <= a * a <= r * r,
        r * r <= 32767 * 32767,
{
    assert(0 <= a * a <= r * r) by (nonlinear_arith)
        requires
            -r <= a <= r,
            0 <= r,
    ;
    assert(r * r <= 32767 * 32767) by (nonlinear_arith)
        requires
            0 <= r <= 32767,
    ;
}

fn corner_inside(dx: i32, dy: i32, w: i32, h: i32, r: i32) -> (b: bool)
    requires
        0 <= dx < w,
        0 <= dy < h,
        0 <= r <= 32767,
    ensures
        b == rounded_inside(dx as int, dy as int, w as int, h as int, r as int),
{
    if dx < r && dy < r {
        proof {
            lemma_sq(dx - r, r as int);
            lemma_sq(dy - r, r as int);
        }
        (dx - r) * (dx - r) + (dy - r) * (dy - r) <= r * r
    } else if dx >= w - r && dy < r {
        proof {
            lemma_sq(dx - (w - r - 1), r as int);
            lemma_sq(dy - r, r as int);
        }
        (dx - (w - r - 1)) * (dx - (w - r - 1)) + (dy - r) * (dy - r) <= r * r
    } else if dx < r && dy >= h - r {
        proof {
            lemma_sq(dx - r, r as int);
            lemma_sq(dy - (h - r - 1), r as int);
        }
        (dx - r) * (dx - r) + (dy - (h - r - 1)) * (dy - (h - r - 1)) <= r * r
    } else if dx >= w - r && dy >= h - r {
        proof {
            lemma_sq(dx - (w - r - 1), r as int);
            lemma_sq(dy - (h - r - 1), r as int);
        }
        (dx - (w - r - 1)) * (dx - (w - r - 1)) + (dy - (h - r - 1)) * (dy - (h - r - 1)) <= r * r
    } else {
        true
    }
}

impl Canvas {
    /// Paints the whole canvas with `c`.
    pub fn fill(&mut self, c: Rgba)
        requires
            old(self).wf(),
        ensures
            final(self).wf(),
            final(self).w == old(self).w,
            final(self).h == old(self).h,
            painted(final(self).pixels@, old(self).pixels@, old(self).w as int, old(self).h as int, solid(|x: int, y: int| true, c)),
    {
        let ghost s0 = self.pixels@;
        let w = self.w;
        let h = self.h;
        self.fill_rect(0, 0, w, h, c);
        proof {
            lemma_paint_same(self.pixels@, s0, w as int, h as int, solid(rect_region(0, 0, w as int, h as int), c), solid(|x: int, y: int| true, c));
        }
    }

    /// Fills a rectangle with corners rounded to radius `r` (clamped to half the width and
    /// height, and to zero).
    pub fn fill_rounded_rect(&mut self, x: i32, y: i32, w: i32, h: i32, r: i32, c: Rgba)
        requires
            old(self).wf(),
            x + w <= i32::MAX + 1,
            y + h <= i32::MAX + 1,
            eff_radius(r as int, w as int, h as int) <= 32767,
        ensures
            final(self).wf(),
            final(self).w == old(self).w,
            final(self).h == old(self).h,
            painted(
                final(self).pixels@,
                old(self).pixels@,
                old(self).w as int,
                old(self).h as int,
                solid(rounded_region(x as int, y as int, w as int, h as int, r as int), c),
            ),
    {
        let rr = {
            let a = if r <= w / 2 { r } else { w / 2 };
            let b = if a <= h / 2 { a } else { h / 2 };
            if b >= 0 { b } else { 0 }
        };
        assert(rr == eff_radius(r as int, w as int, h as int));
        let ghost cw = self.w as int;
        let ghost ch = self.h as int;
        let ghost s0 = self.pixels@;
        let ghost f = solid(rounded_region(x as int, y as int, w as int, h as int, r as int), c);
        let ghost bw: int = if w > 0 { w as int } else { 0 };
        let ghost bh: int = if h > 0 { h as int } else { 0 };
        assert(boxed(f, x as int, y as int, bw, bh));
        proof {
            lemma_scan_start(s0, cw, ch, f, x as int, y as int, bw, bh);
        }
        let mut dy: i32 = 0;
        while dy < h
            invariant
                self.wf(),
                self.w == cw,
                self.h == ch,
                0 <= dy,
                dy <= h || dy == 0,
                x + w <= i32::MAX + 1,
                y + h <= i32::MAX + 1,
                rr == eff_radius(r as int, w as int, h as int),
                0 <= rr <= 32767,
                bw == (if w > 0 { w as int } else { 0 }),
                bh == (if h > 0 { h as int } else { 0 }),
                f == solid(rounded_region(x as int, y as int, w as int, h as int, r as int), c),
                boxed(f, x as int, y as int, bw, bh),
                painted(self.pixels@, s0, cw, ch, scanned(f, x as int, y as int, 0, dy as int)),
            decreases h - dy,
        {
            let mut dx: i32 = 0;
            while dx < w
                invariant
                    self.wf(),
                    self.w == cw,
                    self.h == ch,
                    0 <= dx,
                    dx <= w || dx == 0,
                    0 <= dy < h,
                    x + w <= i32::MAX + 1,
                    y + h <= i32::MAX + 1,
                    rr == eff_radius(r as int, w as int, h as int),
                    0 <= rr <= 32767,
                    bw == (if w > 0 { w as int } else { 0 }),
                    f == solid(rounded_region(x as int, y as int, w as int, h as int, r as int), c),
                    painted(self.pixels@, s0, cw, ch, scanned(f, x as int, y as int, dx as int, dy as int)),
                decreases w - dx,
            {
                let ghost s1 = self.pixels@;
                let inside = corner_inside(dx, dy, w, h, rr);
                if inside {
                    self.put(x + dx, y + dy, c);
                    proof {
                        lemma_scan_step(s0, s1, self.pixels@, cw, ch, f, solid(point(x + dx, y + dy), c), x as int, y as int, dx as int, dy as int);
                    }
                } else {
                    proof {
                        let g = |a: int, b: int| None::<Rgba>;
                        lemma_paint_nothing(s1, cw, ch, g);
                        lemma_scan_step(s0, s1, s1, cw, ch, f, g, x as int, y as int, dx as int, dy as int);
                    }
                }
                dx = dx + 1;
            }
            proof {
                lemma_scan_row(self.pixels@, s0, cw, ch, f, x as int, y as int, bw, bh, dy as int);
            }
            dy = dy + 1;
        }
        proof {
            lemma_scan_end(self.pixels@, s0, cw, ch, f, x as int, y as int, bw, bh);
        }
    }
}


/// The rounded-rectangle outline: `border` ring with `fill` inside.
pub open spec fn bordered(x: int, y: int, w: int, h: int, r: int, fill: Rgba, border: Rgba) -> spec_fn(int, int) -> Option<Rgba> {
    |a: int, b: int|
        if rounded_region(x + 1, y + 1, w - 2, h - 2, max_int(r - 1, 0))(a, b) {
            Some(fill)
        } else if rounded_region(x, y, w, h, r)(a, b) {
            Some(border)
        } else {
            None
        }
}

/// The three bars of the menu ("hamburger") icon: 18 x 2 rounded bars 6 px apart.
pub open spec fn hamburger_region(x: int, y: int) -> spec_fn(int, int) -> bool {
    |a: int, b: int|
        rounded_region(x, y, 18, 2, 1)(a, b) || rounded_region(x, y + 6, 18, 2, 1)(a, b) || rounded_region(x, y + 12, 18, 2, 1)(a, b)
}

/// The close cross: both diagonals of the 12 x 12 square at `(x, y)`, rows before `y + rows`.
pub open spec fn cross_region(x: int, y: int, rows: int) -> spec_fn(int, int) -> bool {
    |a: int, b: int| 0 <= b - y < rows && (a - x == b - y || a - x == 11 - (b - y))
}

/// The disc of radius `r` around `(cx, cy)`: `border` on its outer one-pixel ring
/// (squared distance at least `(r - 1)^2`), `fill` inside.
pub open spec fn disc(cx: int, cy: int, r: int, fill: Rgba, border: Rgba) -> spec_fn(int, int) -> Option<Rgba> {
    |a: int, b: int|
        {
            let dx = a - cx;
            let dy = b - cy;
            let d2 = dx * dx + dy * dy;
            if -r <= dx <= r && -r <= dy <= r && d2 <= r * r {
                Some(if d2 >= (r - 1) * (r - 1) { border } else { fill })
            } else {
                None
            }
        }
}

impl Canvas {
    /// A rounded rectangle with a one-pixel `border` and `fill` inside.
    pub fn bordered_rounded_rect(&mut self, x: i32, y: i32, w: i32, h: i32, r: i32, fill: Rgba, border: Rgba)
        requires
            old(self).wf(),
            x + w <= i32::MAX + 1,
            y + h <= i32::MAX + 1,
            x < i32::MAX,
            y < i32::MAX,
            w >= i32::MIN + 2,
            h >= i32::MIN + 2,
            eff_radius(r as int, w as int, h as int) <= 32767,
            eff_radius(max_int(r - 1, 0), w - 2, h - 2) <= 32767,
        ensures
            final(self).wf(),
            final(self).w == old(self).w,
            final(self).h == old(self).h,
            painted(
                final(self).pixels@,
                old(self).pixels@,
                old(self).w as int,
                old(self).h as int,
                bordered(x as int, y as int, w as int, h as int, r as int, fill, border),
            ),
    {
        let ghost s0 = self.pixels@;
        self.fill_rounded_rect(x, y, w, h, r, border);
        let ghost s1 = self.pixels@;
        let r2 = if r >= 1 { r - 1 } else { 0 };
        self.fill_rounded_rect(x + 1, y + 1, w - 2, h - 2, r2, fill);
        proof {
            lemma_paint_then(
                s0,
                s1,
                self.pixels@,
                self.w as int,
                self.h as int,
                solid(rounded_region(x as int, y as int, w as int, h as int, r as int), border),
                solid(rounded_region(x + 1, y + 1, w - 2, h - 2, r2 as int), fill),
                bordered(x as int, y as int, w as int, h as int, r as int, fill, border),
            );
        }
    }

    /// A one-pixel horizontal line of `w` pixels.
    pub fn hline(&mut self, x: i32, y: i32, w: i32, c: Rgba)
        requires
            old(self).wf(),
            x + w <= i32::MAX + 1,
            y < i32::MAX,
        ensures
            final(self).wf(),
            final(self).w == old(self).w,
            final(self).h == old(self).h,
            painted(
                final(self).pixels@,
                old(self).pixels@,
                old(self).w as int,
                old(self).h as int,
                solid(rect_region(x as int, y as int, w as int, 1), c),
            ),
    {
        self.fill_rect(x, y, w, 1, c);
    }

    /// The menu icon: three rounded bars.
    pub fn draw_hamburger(&mut self, x: i32, y: i32, c: Rgba)
        requires
            old(self).wf(),
            x + 18 <= i32::MAX + 1,
            y + 14 <= i32::MAX + 1,
        ensures
            final(self).wf(),
            final(self).w == old(self).w,
            final(self).h == old(self).h,
            painted(final(self).pixels@, old(self).pixels@, old(self).w as int, old(self).h as int, solid(hamburger_region(x as int, y as int), c)),
    {
        let ghost s0 = self.pixels@;
        let ghost cw = self.w as int;
        let ghost ch = self.h as int;
        proof {
            lemma_paint_nothing(s0, cw, ch, solid(|a: int, b: int| false, c));
        }
        let mut i: i32 = 0;
        while i < 3
            invariant
                self.wf(),
                self.w == cw,
                self.h == ch,
                0 <= i <= 3,
                x + 18 <= i32::MAX + 1,
                y + 14 <= i32::MAX + 1,
                painted(
                    self.pixels@,
                    s0,
                    cw,
                    ch,
                    solid(
                        |a: int, b: int|
                            (i > 0 && rounded_region(x as int, y as int, 18, 2, 1)(a, b)) || (i > 1 && rounded_region(
                                x as int,
                                y + 6,
                                18,
                                2,
                                1,
                            )(a, b)) || (i > 2 && rounded_region(x as int, y + 12, 18, 2, 1)(a, b)),
                        c,
                    ),
                ),
            decreases 3 - i,
        {
            let ghost s1 = self.pixels@;
            let ghost before = solid(
                |a: int, b: int|
                    (i > 0 && rounded_region(x as int, y as int, 18, 2, 1)(a, b)) || (i > 1 && rounded_region(x as int, y + 6, 18, 2, 1)(
                        a,
                        b,
                    )) || (i > 2 && rounded_region(x as int, y + 12, 18, 2, 1)(a, b)),
                c,
            );
            self.fill_rounded_rect(x, y + i * 6, 18, 2, 1, c);
            proof {
                let i1 = i + 1;
                let after = solid(
                    |a: int, b: int|
                        (i1 > 0 && rounded_region(x as int, y as int, 18, 2, 1)(a, b)) || (i1 > 1 && rounded_region(
                            x as int,
                            y + 6,
                            18,
                            2,
                            1,
                        )(a, b)) || (i1 > 2 && rounded_region(x as int, y + 12, 18, 2, 1)(a, b)),
                    c,
                );
                lemma_paint_then(
                    s0,
                    s1,
                    self.pixels@,
                    cw,
                    ch,
                    before,
                    solid(rounded_region(x as int, y + i * 6, 18, 2, 1), c),
                    after,
                );
            }
            i = i + 1;
        }
        proof {
            lemma_paint_same(
                self.pixels@,
                s0,
                cw,
                ch,
                solid(
                    |a: int, b: int|
                        (3 > 0 && rounded_region(x as int, y as int, 18, 2, 1)(a, b)) || (3 > 1 && rounded_region(
                            x as int,
                            y + 6,
                            18,
                            2,
                            1,
                        )(a, b)) || (3 > 2 && rounded_region(x as int, y + 12, 18, 2, 1)(a, b)),
                    c,
                ),
                solid(hamburger_region(x as int, y as int), c),
            );
        }
    }

    /// The close icon: the two diagonals of a 12 x 12 square.
    pub fn draw_close(&mut self, x: i32, y: i32, c: Rgba)
        requires
            old(self).wf(),
            x + 11 <= i32::MAX,
            y + 11 <= i32::MAX,
        ensures
            final(self).wf(),
            final(self).w == old(self).w,
            final(self).h == old(self).h,
            painted(final(self).pixels@, old(self).pixels@, old(self).w as int, old(self).h as int, solid(cross_region(x as int, y as int, 12), c)),
    {
        let ghost s0 = self.pixels@;
        let ghost cw = self.w as int;
        let ghost ch = self.h as int;
        proof {
            lemma_paint_nothing(s0, cw, ch, solid(cross_region(x as int, y as int, 0), c));
        }
        let mut i: i32 = 0;
        while i < 12
            invariant
                self.wf(),
                self.w == cw,
                self.h == ch,
                0 <= i <= 12,
                x + 11 <= i32::MAX,
                y + 11 <= i32::MAX,
                painted(self.pixels@, s0, cw, ch, solid(cross_region(x as int, y as int, i as int), c)),
            decreases 12 - i,
        {
            let ghost s1 = self.pixels@;
            self.put(x + i, y + i, c);
            let ghost s2 = self.pixels@;
            self.put(x + 11 - i, y + i, c);
            proof {
                let mid = solid(
                    |a: int, b: int| cross_region(x as int, y as int, i as int)(a, b) || (a == x + i && b == y + i),
                    c,
                );
                lemma_paint_then(s0, s1, s2, cw, ch, solid(cross_region(x as int, y as int, i as int), c), solid(point(x + i, y + i), c), mid);
                lemma_paint_then(
                    s0,
                    s2,
                    self.pixels@,
                    cw,
                    ch,
                    mid,
                    solid(point(x + 11 - i, y + i), c),
                    solid(cross_region(x as int, y as int, i + 1), c),
                );
            }
            i = i + 1;
        }
    }

    /// A disc of radius `max(r, 1)` around `(cx, cy)` with a one-pixel `border` ring.
    pub fn fill_circle(&mut self, cx: i32, cy: i32, r: i32, fill: Rgba, border: Rgba)
        requires
            old(self).wf(),
            max_int(r as int, 1) <= 32767,
            cx - max_int(r as int, 1) >= i32::MIN,
            cx + max_int(r as int, 1) <= i32::MAX,
            cy - max_int(r as int, 1) >= i32::MIN,
            cy + max_int(r as int, 1) <= i32::MAX,
        ensures
            final(self).wf(),
            final(self).w == old(self).w,
            final(self).h == old(self).h,
            painted(
                final(self).pixels@,
                old(self).pixels@,
                old(self).w as int,
                old(self).h as int,
                disc(cx as int, cy as int, max_int(r as int, 1), fill, border),
            ),
    {
        let r = if r >= 1 { r } else { 1 };
        let ghost cw = self.w as int;
        let ghost ch = self.h as int;
        let ghost s0 = self.pixels@;
        let ghost f = disc(cx as int, cy as int, r as int, fill, border);
        let ghost x0 = cx - r;
        let ghost y0 = cy - r;
        let ghost side = 2 * r + 1;
        assert(boxed(f, x0, y0, side, side));
        proof {
            lemma_scan_start(s0, cw, ch, f, x0, y0, side, side);
            lemma_sq(r - 1, r as int);
        }
        let mut dy: i32 = -r;
        while dy <= r
            invariant
                self.wf(),
                self.w == cw,
                self.h == ch,
                1 <= r <= 32767,
                -r <= dy <= r + 1,
                cx - r >= i32::MIN,
                cx + r <= i32::MAX,
                cy - r >= i32::MIN,
                cy + r <= i32::MAX,
                x0 == cx - r,
                y0 == cy - r,
                side == 2 * r + 1,
                f == disc(cx as int, cy as int, r as int, fill, border),
                boxed(f, x0, y0, side, side),
                painted(self.pixels@, s0, cw, ch, scanned(f, x0, y0, 0, dy + r)),
            decreases r + 1 - dy,
        {
            let mut dx: i32 = -r;
            while dx <= r
                invariant
                    self.wf(),
                    self.w == cw,
                    self.h == ch,
                    1 <= r <= 32767,
                    -r <= dx <= r + 1,
                    -r <= dy <= r,
                    cx - r >= i32::MIN,
                    cx + r <= i32::MAX,
                    cy - r >= i32::MIN,
                    cy + r <= i32::MAX,
                    x0 == cx - r,
                    y0 == cy - r,
                    f == disc(cx as int, cy as int, r as int, fill, border),
                    painted(self.pixels@, s0, cw, ch, scanned(f, x0, y0, dx + r, dy + r)),
                decreases r + 1 - dx,
            {
                let ghost s1 = self.pixels@;
                proof {
                    lemma_sq(dx as int, r as int);
                    lemma_sq(dy as int, r as int);
                    lemma_sq(r - 1, r as int);
                }
                let d2 = dx * dx + dy * dy;
                if d2 <= r * r {
                    let col = if d2 >= (r - 1) * (r - 1) { border } else { fill };
                    self.put(cx + dx, cy + dy, col);
                    proof {
                        lemma_scan_step(s0, s1, self.pixels@, cw, ch, f, solid(point(cx + dx, cy + dy), col), x0, y0, dx + r, dy + r);
                    }
                } else {
                    proof {
                        let g = |a: int, b: int| None::<Rgba>;
                        lemma_paint_nothing(s1, cw, ch, g);
                        lemma_scan_step(s0, s1, s1, cw, ch, f, g, x0, y0, dx + r, dy + r);
                    }
                }
                dx = dx + 1;
            }
            proof {
                lemma_scan_row(self.pixels@, s0, cw, ch, f, x0, y0, side, side, dy + r);
            }
            dy = dy + 1;
        }
        proof {
            lemma_scan_end(self.pixels@, s0, cw, ch, f, x0, y0, side, side);
        }
    }
}

} // verus!
