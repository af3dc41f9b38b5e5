//! Alpha blending onto the canvas: single pixels, and coverage masks (rasterized glyphs and
//! icons) tinted with one colour.

use vstd::prelude::*;

use super::raster::{
    boxed, idx, lemma_idx, lemma_idx_distinct, lemma_paint_nothing, lemma_scan_end, lemma_scan_row, lemma_scan_start,
    lemma_scan_step, painted, pixel_of, scanned, Canvas,
};
use super::theme::Rgba;

verus! {

/// One channel of `fg` over `bg` with coverage `a` (out of 255).
pub open spec fn mix(fg: u8, bg: u8, a: u8) -> u8 {
    ((fg * a + bg * (255 - a)) / 255) as u8
}

/// `fg` over the opaque `bg` with coverage `a`; the result is opaque.
pub open spec fn blended(bg: Rgba, fg: Rgba, a: u8) -> Rgba {
    Rgba { r: mix(fg.r, bg.r, a), g: mix(fg.g, bg.g, a), b: mix(fg.b, bg.b, a), a: 255 }
}

/// What `blend` paints at `(x, y)` over `old`: `fg` itself at full coverage, else `fg`
/// mixed with the pixel's colour.
pub open spec fn blend_at(old: Seq<u8>, w: int, x: int, y: int, fg: Rgba, alpha: u8) -> Rgba {
    if alpha == 255 {
        fg
    } else {
        blended(pixel_of(old, idx(w, x, y)), fg, alpha)
    }
}

fn mix_channel(fg: u8, bg: u8, a: u8) -> (r: u8)
    ensures
        r == mix(fg, bg, a),
{
    assert(fg * a + bg * (255 - a) <= 255 * 255) by (nonlinear_arith)
        requires
            fg <= 255,
            bg <= 255,
            a <= 255,
    ;
    assert(0 <= fg * a + bg * (255 - a)) by (nonlinear_arith)
        requires
            a <= 255,
    ;
    let a16 = a as u16;
    let inv = 255 - a16;
    ((fg as u16 * a16 + bg as u16 * inv) / 255) as u8
}

/// Blends `fg` with coverage `alpha` onto pixel `(x, y)` (nothing outside the canvas); the
/// pixel's alpha becomes opaque unless `alpha` is 255 (then `fg` is written as is).
pub fn blend(c: &mut Canvas, x: i32, y: i32, fg: Rgba, alpha: u8)
    requires
        old(c).wf(),
    ensures
        final(c).wf(),
        final(c).w == old(c).w,
        final(c).h == old(c).h,
        painted(
            final(c).pixels@,
            old(c).pixels@,
            old(c).w as int,
            old(c).h as int,
            |a: int, b: int|
                if a == x && b == y {
                    Some(blend_at(old(c).pixels@, old(c).w as int, x as int, y as int, fg, alpha))
                } else {
                    None
                },
        ),
{
    let ghost s0 = c.pixels@;
    let ghost w = c.w as int;
    let ghost h = c.h as int;
    if x < 0 || y < 0 || x >= c.w || y >= c.h {
        proof {
            lemma_paint_nothing(
                s0,
                w,
                h,
                |a: int, b: int|
                    if a == x && b == y {
                        Some(blend_at(s0, w, x as int, y as int, fg, alpha))
                    } else {
                        None
                    },
            );
        }
        return;
    }
    if alpha == 255 {
        c.put(x, y, fg);
        return;
    }
    proof {
        lemma_idx(w, h, x as int, y as int);
    }
    let i = ((y * c.w + x) * 4) as usize;
    let bg = Rgba::new(c.pixels[i + 2], c.pixels[i + 1], c.pixels[i], 255);
    let r = mix_channel(fg.r, bg.r, alpha);
    let g = mix_channel(fg.g, bg.g, alpha);
    let b = mix_channel(fg.b, bg.b, alpha);
    c.put(x, y, Rgba::new(r, g, b, 255));
}

/// The pixels `blit_mask` paints: where the mask covers, the tint blended over `old`.
pub open spec fn mask_paint(
    old: Seq<u8>,
    cw: int,
    x: int,
    y: int,
    w: int,
    h: int,
    stride: int,
    mask: Seq<u8>,
    tint: Rgba,
) -> spec_fn(int, int) -> Option<Rgba> {
    |a: int, b: int|
        if x <= a < x + w && y <= b < y + h && mask[(b - y) * stride + (a - x)] > 0 {
            Some(blend_at(old, cw, a, b, tint, mask[(b - y) * stride + (a - x)]))
        } else {
            None
        }
}

/// Blends `tint` through a coverage mask (`h` rows of `stride` bytes; the first `w` of each
/// row are used) with its top-left corner at `(x, y)`; zero coverage leaves a pixel alone.
pub fn blit_mask(c: &mut Canvas, x: i32, y: i32, w: i32, h: i32, stride: usize, mask: &Vec<u8>, tint: Rgba)
    requires
        old(c).wf(),
        0 <= w <= stride,
        0 <= h,
        h * stride <= mask@.len(),
        x + w <= i32::MAX + 1,
        y + h <= i32::MAX + 1,
    ensures
        final(c).wf(),
        final(c).w == old(c).w,
        final(c).h == old(c).h,
        painted(
            final(c).pixels@,
            old(c).pixels@,
            old(c).w as int,
            old(c).h as int,
            mask_paint(old(c).pixels@, old(c).w as int, x as int, y as int, w as int, h as int, stride as int, mask@, tint),
        ),
{
    let ghost s0 = c.pixels@;
    let ghost cw = c.w as int;
    let ghost ch = c.h as int;
    let ghost f = mask_paint(s0, cw, x as int, y as int, w as int, h as int, stride as int, mask@, tint);
    assert(boxed(f, x as int, y as int, w as int, h as int));
    proof {
        lemma_scan_start(s0, cw, ch, f, x as int, y as int, w as int, h as int);
    }
    let mut row: i32 = 0;
    while row < h
        invariant
            c.wf(),
            c.w == cw,
            c.h == ch,
            0 <= row <= h,
            0 <= w <= stride,
            h * stride <= mask@.len(),
            x + w <= i32::MAX + 1,
            y + h <= i32::MAX + 1,
            f == mask_paint(s0, cw, x as int, y as int, w as int, h as int, stride as int, mask@, tint),
            boxed(f, x as int, y as int, w as int, h as int),
            painted(c.pixels@, s0, cw, ch, scanned(f, x as int, y as int, 0, row as int)),
        decreases h - row,
    {
        let mut col: i32 = 0;
        while col < w
            invariant
                c.wf(),
                c.w == cw,
                c.h == ch,
                0 <= col <= w,
                0 <= row < h,
                0 <= w <= stride,
                h * stride <= mask@.len(),
                x + w <= i32::MAX + 1,
                y + h <= i32::MAX + 1,
                f == mask_paint(s0, cw, x as int, y as int, w as int, h as int, stride as int, mask@, tint),
                painted(c.pixels@, s0, cw, ch, scanned(f, x as int, y as int, col as int, row as int)),
            decreases w - col,
        {
            let ghost s1 = c.pixels@;
            assert(row * stride + col < h * stride) by (nonlinear_arith)
                requires
                    0 <= row < h,
                    0 <= col < w <= stride,
            ;
            assert(0 <= row * stride) by (nonlinear_arith)
                requires
                    0 <= row,
                    0 <= stride,
            ;
            let mlen = mask.len();
            assert(row * stride <= row * stride + col < mlen);
            let k = row as usize * stride + col as usize;
            let alpha = mask[k];
            let px = x + col;
            let py = y + row;
            if alpha > 0 {
                blend(c, px, py, tint, alpha);
                proof {
                    let g = |a: int, b: int|
                        if a == px && b == py {
                            Some(blend_at(s1, cw, px as int, py as int, tint, alpha))
                        } else {
                            None
                        };
                    // The pixel is reached for the first time: it still holds its colour in `s0`.
                    if 0 <= px < cw && 0 <= py < ch {
                        assert(scanned(f, x as int, y as int, col as int, row as int)(px as int, py as int) is None);
                        assert(pixel_of(s1, idx(cw, px as int, py as int)) == pixel_of(s0, idx(cw, px as int, py as int)));
                    }
                    assert forall|a: int, b: int| 0 <= a < cw && 0 <= b < ch implies #[trigger] g(a, b) == (if a == x + col && b == y + row {
                        f(a, b)
                    } else {
                        None
                    }) by {
                        if a == x + col && b == y + row {
                            assert((b - y) * stride + (a - x) == k);
                        }
                    }
                    lemma_scan_step(s0, s1, c.pixels@, cw, ch, f, g, x as int, y as int, col as int, row as int);
                }
            } else {
                proof {
                    let g = |a: int, b: int| None::<Rgba>;
                    lemma_paint_nothing(s1, cw, ch, g);
                    assert forall|a: int, b: int| 0 <= a < cw && 0 <= b < ch implies #[trigger] g(a, b) == (if a == x + col && b == y + row {
                        f(a, b)
                    } else {
                        None
                    }) by {
                        if a == x + col && b == y + row {
                            assert((b - y) * stride + (a - x) == k);
                        }
                    }
                    lemma_scan_step(s0, s1, s1, cw, ch, f, g, x as int, y as int, col as int, row as int);
                }
            }
            col = col + 1;
        }
        proof {
            lemma_scan_row(c.pixels@, s0, cw, ch, f, x as int, y as int, w as int, h as int, row as int);
        }
        row = row + 1;
    }
    proof {
        lemma_scan_end(c.pixels@, s0, cw, ch, f, x as int, y as int, w as int, h as int);
    }
}

} // verus!
