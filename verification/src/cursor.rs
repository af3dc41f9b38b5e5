//! The pointer image: an XCursor theme's `left_ptr` at the nearest size, or a built-in arrow.

use vstd::prelude::*;

use crate::text::{spec_trim, trim};

verus! {

/// One image of an XCursor file.
pub struct CursorImage {
    /// Nominal size.
    pub size: u32,
    pub width: u32,
    pub height: u32,
    /// Hotspot (the arrow's tip).
    pub xhot: u32,
    pub yhot: u32,
    /// `4 * width * height` bytes, in the file's order.
    pub pixels_rgba: Vec<u8>,
}

/// What `xcursor::parser::parse_xcursor` makes of a file: `None` when it is malformed, else
/// its images in table-of-contents order as (size, width, height, xhot, yhot, pixels).
pub uninterp spec fn xcursor_images(data: Seq<u8>) -> Option<Seq<(u32, u32, u32, u32, u32, Seq<u8>)>>;

pub open spec fn image_view(img: CursorImage) -> (u32, u32, u32, u32, u32, Seq<u8>) {
    (img.size, img.width, img.height, img.xhot, img.yhot, img.pixels_rgba@)
}

/// An image as the parser checks it: 1..=0x7fff pixels wide and high, hotspot within the
/// image, `4 * width * height` bytes.
pub open spec fn image_ok(img: CursorImage) -> bool {
    &&& 1 <= img.width <= 0x7fff
    &&& 1 <= img.height <= 0x7fff
    &&& img.xhot <= img.width
    &&& img.yhot <= img.height
    &&& img.pixels_rgba@.len() == 4 * img.width * img.height
}

/// Calls `xcursor::parser::parse_xcursor`. The result is the named `xcursor_images` of the
/// bytes; every image it returns passed the parser's own checks (size, hotspot, pixel
/// count). The parser allocates the pixel buffer an image header announces before
/// reading it; that allocation is not bounded here.
#[verifier::external_body]
fn parse_xcursor(data: &Vec<u8>) -> (r: Option<Vec<CursorImage>>)
    ensures
        match r {
            None => xcursor_images(data@) is None,
            Some(v) => xcursor_images(data@) == Some(v@.map_values(|img: CursorImage| image_view(img)))
                && forall|i: int| 0 <= i < v@.len() ==> image_ok(#[trigger] v@[i]),
        },
{
    xcursor::parser::parse_xcursor(data.as_slice()).map(
        |images| {
            images.into_iter().map(
                |img| CursorImage {
                    size: img.size,
                    width: img.width,
                    height: img.height,
                    xhot: img.xhot,
                    yhot: img.yhot,
                    pixels_rgba: img.pixels_rgba,
                },
            ).collect()
        },
    )
}

/// A size read as an `i32` (sizes above `i32::MAX` come out negative).
pub open spec fn as_i32(v: u32) -> int {
    if v <= i32::MAX {
        v as int
    } else {
        v - 0x1_0000_0000
    }
}

/// Distance between the wanted and an image's nominal size, computed on `i32`s as the
/// original computes it: the difference wraps around, and the absolute value of `i32::MIN`
/// stays `i32::MIN`. For sizes up to `i32::MAX` this is the plain distance.
pub open spec fn size_gap(want: u32, have: u32) -> int {
    let d = as_i32(want) - as_i32(have);
    let w = if d > i32::MAX {
        d - 0x1_0000_0000
    } else if d < i32::MIN {
        d + 0x1_0000_0000
    } else {
        d
    };
    if w == i32::MIN {
        w
    } else if w < 0 {
        -w
    } else {
        w
    }
}

/// The first index whose image size is nearest to `want` among the first `n` sizes.
pub open spec fn nearest_upto(want: u32, sizes: Seq<u32>, n: int) -> int
    decreases n,
{
    if n <= 1 {
        0
    } else {
        let k = nearest_upto(want, sizes, n - 1);
        if size_gap(want, sizes[n - 1]) < size_gap(want, sizes[k]) {
            n - 1
        } else {
            k
        }
    }
}

pub open spec fn sizes_of(images: Seq<CursorImage>) -> Seq<u32> {
    images.map_values(|img: CursorImage| img.size)
}

pub proof fn lemma_nearest_upto(want: u32, sizes: Seq<u32>, n: int)
    requires
        1 <= n <= sizes.len(),
    ensures
        0 <= nearest_upto(want, sizes, n) < n,
        forall|j: int| 0 <= j < n ==> size_gap(want, sizes[nearest_upto(want, sizes, n)]) <= size_gap(want, #[trigger] sizes[j]),
        forall|j: int| 0 <= j < nearest_upto(want, sizes, n) ==> size_gap(want, sizes[nearest_upto(want, sizes, n)]) < size_gap(want, #[trigger] sizes[j]),
    decreases n,
{
    if n > 1 {
        lemma_nearest_upto(want, sizes, n - 1);
    }
}

fn gap(want: u32, have: u32) -> (r: i64)
    ensures
        r == size_gap(want, have),
{
    let a: i64 = if want <= 0x7fff_ffff { want as i64 } else { want as i64 - 0x1_0000_0000 };
    let b: i64 = if have <= 0x7fff_ffff { have as i64 } else { have as i64 - 0x1_0000_0000 };
    let d = a - b;
    let w = if d > 0x7fff_ffff {
        d - 0x1_0000_0000
    } else if d < -0x8000_0000 {
        d + 0x1_0000_0000
    } else {
        d
    };
    if w == -0x8000_0000 {
        w
    } else if w < 0 {
        -w
    } else {
        w
    }
}

/// The image whose nominal size is nearest to `want` (the first of equally near ones, by
/// `size_gap`), as an index; `None` for no images.
pub fn nearest_image(want: u32, images: &Vec<CursorImage>) -> (r: Option<usize>)
    ensures
        images@.len() == 0 ==> r is None,
        images@.len() > 0 ==> r == Some(nearest_upto(want, sizes_of(images@), images@.len() as int) as usize),
{
    if images.len() == 0 {
        return None;
    }
    let ghost sizes = sizes_of(images@);
    let mut best: usize = 0;
    let mut best_gap: i64 = gap(want, images[0].size);
    let mut i: usize = 1;
    while i < images.len()
        invariant
            1 <= i <= images@.len(),
            sizes == sizes_of(images@),
            best == nearest_upto(want, sizes, i as int),
            best < i,
            best_gap == size_gap(want, sizes[best as int]),
        decreases images@.len() - i,
    {
        let g = gap(want, images[i].size);
        assert(sizes[i as int] == images@[i as int].size);
        if g < best_gap {
            best = i;
            best_gap = g;
        }
        i = i + 1;
    }
    Some(best)
}

/// Parses an XCursor file and picks the image nearest to `want` (see `nearest_image`):
/// `None` when the file does not parse or has no image.
pub fn load_cursor_image(data: &Vec<u8>, want: u32) -> (r: Option<CursorImage>)
    ensures
        match r {
            Some(img) => ({
                &&& xcursor_images(data@) matches Some(imgs)
                &&& imgs.len() > 0
                &&& image_view(img) == imgs[nearest_upto(want, imgs.map_values(|t: (u32, u32, u32, u32, u32, Seq<u8>)| t.0), imgs.len() as int)]
                &&& image_ok(img)
            }),
            None => match xcursor_images(data@) {
                None => true,
                Some(imgs) => imgs.len() == 0,
            },
        },
{
    let images = match parse_xcursor(data) {
        Some(v) => v,
        None => return None,
    };
    let ghost imgs = images@.map_values(|img: CursorImage| image_view(img));
    let k = match nearest_image(want, &images) {
        Some(k) => k,
        None => return None,
    };
    assert(sizes_of(images@) =~= imgs.map_values(|t: (u32, u32, u32, u32, u32, Seq<u8>)| t.0));
    proof {
        lemma_nearest_upto(want, sizes_of(images@), images@.len() as int);
    }
    let mut images = images;
    let img = images.swap_remove(k);
    Some(img)
}

/// Width and height of the built-in arrow.
pub const FALLBACK_SIZE: i32 = 16;

/// The built-in arrow: white where `x <= min(y, 10)`, transparent elsewhere (16 x 16, four
/// bytes per pixel).
pub open spec fn fallback_white(x: int, y: int) -> bool {
    x <= if y <= 10 { y } else { 10 }
}

pub fn fallback_cursor_pixels() -> (r: Vec<u8>)
    ensures
        r@.len() == 16 * 16 * 4,
        forall|y: int, x: int, k: int|
            0 <= y < 16 && 0 <= x < 16 && 0 <= k < 4 ==> #[trigger] r@[(y * 16 + x) * 4 + k] == if fallback_white(x, y) {
                255u8
            } else {
                0u8
            },
{
    let mut pixels: Vec<u8> = Vec::new();
    let mut y: i32 = 0;
    while y < 16
        invariant
            0 <= y <= 16,
            pixels@.len() == y * 16 * 4,
            forall|yy: int, x: int, k: int|
                0 <= yy < y && 0 <= x < 16 && 0 <= k < 4 ==> #[trigger] pixels@[(yy * 16 + x) * 4 + k] == if fallback_white(x, yy) {
                    255u8
                } else {
                    0u8
                },
        decreases 16 - y,
    {
        let mut x: i32 = 0;
        while x < 16
            invariant
                0 <= y < 16,
                0 <= x <= 16,
                pixels@.len() == (y * 16 + x) * 4,
                forall|yy: int, xx: int, k: int|
                    0 <= yy < y && 0 <= xx < 16 && 0 <= k < 4 ==> #[trigger] pixels@[(yy * 16 + xx) * 4 + k] == if fallback_white(xx, yy) {
                        255u8
                    } else {
                        0u8
                    },
                forall|xx: int, k: int|
                    0 <= xx < x && 0 <= k < 4 ==> #[trigger] pixels@[(y * 16 + xx) * 4 + k] == if fallback_white(xx, y as int) {
                        255u8
                    } else {
                        0u8
                    },
            decreases 16 - x,
        {
            let limit = if y <= 10 { y } else { 10 };
            let v: u8 = if x <= limit { 255 } else { 0 };
            let ghost before = pixels@;
            pixels.push(v);
            pixels.push(v);
            pixels.push(v);
            pixels.push(v);
            proof {
                assert forall|yy: int, xx: int, k: int|
                    0 <= yy < y && 0 <= xx < 16 && 0 <= k < 4 implies #[trigger] pixels@[(yy * 16 + xx) * 4 + k] == if fallback_white(xx, yy) {
                        255u8
                    } else {
                        0u8
                    } by {
                    assert((yy * 16 + xx) * 4 + k < y * 16 * 4) by (nonlinear_arith)
                        requires
                            0 <= yy < y,
                            0 <= xx < 16,
                            0 <= k < 4,
                    ;
                    assert(pixels@[(yy * 16 + xx) * 4 + k] == before[(yy * 16 + xx) * 4 + k]);
                }
                assert forall|xx: int, k: int|
                    0 <= xx < x + 1 && 0 <= k < 4 implies #[trigger] pixels@[(y * 16 + xx) * 4 + k] == if fallback_white(xx, y as int) {
                        255u8
                    } else {
                        0u8
                    } by {
                    if xx < x {
                        assert(pixels@[(y * 16 + xx) * 4 + k] == before[(y * 16 + xx) * 4 + k]);
                    }
                }
            }
            x = x + 1;
        }
        y = y + 1;
    }
    pixels
}

/// Cursor themes to try, in order: the ones named by `KIOSKWM_CURSOR_THEME` and
/// `XCURSOR_THEME` (trimmed, when not empty; `from_env` holds their values in that order),
/// then Breeze Light, Breeze, Adwaita and the default theme.
pub open spec fn spec_theme_candidates(from_env: Seq<Seq<char>>) -> Seq<Seq<char>> {
    from_env.map_values(|v: Seq<char>| spec_trim(v)).filter(|v: Seq<char>| v.len() > 0) + seq![
        "Breeze_Light"@,
        "breeze_cursors"@,
        "Adwaita"@,
        "default"@,
    ]
}

pub open spec fn views(v: Seq<String>) -> Seq<Seq<char>> {
    v.map_values(|s: String| s@)
}

pub fn cursor_theme_candidates(from_env: &Vec<String>) -> (r: Vec<String>)
    ensures
        views(r@) == spec_theme_candidates(views(from_env@)),
{
    let mut themes: Vec<String> = Vec::new();
    let mut i: usize = 0;
    while i < from_env.len()
        invariant
            i <= from_env@.len(),
            views(themes@) == views(from_env@).take(i as int).map_values(|v: Seq<char>| spec_trim(v)).filter(
                |v: Seq<char>| v.len() > 0,
            ),
        decreases from_env@.len() - i,
    {
        let name = trim(from_env[i].as_str());
        let ghost before = views(themes@);
        let ghost t = views(from_env@).take(i + 1).map_values(|v: Seq<char>| spec_trim(v));
        assert(views(from_env@).take(i + 1).map_values(|v: Seq<char>| spec_trim(v)).drop_last()
            =~= views(from_env@).take(i as int).map_values(|v: Seq<char>| spec_trim(v)));
        assert(t.last() == name@);
        proof {
            Seq::filter_distributes_over_add(t.drop_last(), seq![t.last()], |v: Seq<char>| v.len() > 0);
            assert(t =~= t.drop_last() + seq![t.last()]);
        }
        if name.as_str().unicode_len() > 0 {
            themes.push(name);
            assert(views(themes@) =~= before.push(t.last()));
            assert(seq![t.last()].filter(|v: Seq<char>| v.len() > 0) =~= seq![t.last()]) by {
                reveal_with_fuel(Seq::filter, 2);
            }
        } else {
            assert(seq![t.last()].filter(|v: Seq<char>| v.len() > 0) =~= Seq::<Seq<char>>::empty()) by {
                reveal_with_fuel(Seq::filter, 2);
            }
        }
        i = i + 1;
    }
    assert(views(from_env@).take(from_env@.len() as int) =~= views(from_env@));
    let ghost env_part = views(themes@);
    themes.push(String::from_str("Breeze_Light"));
    themes.push(String::from_str("breeze_cursors"));
    themes.push(String::from_str("Adwaita"));
    themes.push(String::from_str("default"));
    assert(views(themes@) =~= env_part + seq!["Breeze_Light"@, "breeze_cursors"@, "Adwaita"@, "default"@]);
    themes
}

} // verus!
