use kioskwm::cursor::{cursor_theme_candidates, fallback_cursor_pixels, load_cursor_image, nearest_image, CursorImage};

fn le(v: u32) -> [u8; 4] {
    v.to_le_bytes()
}

/// An XCursor file with one `w` x `h` image per given nominal size.
fn xcursor_file(images: &[(u32, u32, u32)]) -> Vec<u8> {
    let mut f = Vec::new();
    f.extend_from_slice(b"Xcur");
    f.extend_from_slice(&le(16));
    f.extend_from_slice(&le(0x1_0000));
    f.extend_from_slice(&le(images.len() as u32));
    let mut pos = 16 + 12 * images.len() as u32;
    let mut bodies = Vec::new();
    for (size, w, h) in images {
        f.extend_from_slice(&le(0xfffd_0002));
        f.extend_from_slice(&le(*size));
        f.extend_from_slice(&le(pos));
        let mut body = Vec::new();
        body.extend_from_slice(&[0x24, 0, 0, 0]);
        body.extend_from_slice(&[0x02, 0x00, 0xfd, 0xff]);
        body.extend_from_slice(&le(*size));
        body.extend_from_slice(&[1, 0, 0, 0]);
        body.extend_from_slice(&le(*w));
        body.extend_from_slice(&le(*h));
        body.extend_from_slice(&le(1));
        body.extend_from_slice(&le(2));
        body.extend_from_slice(&le(50));
        for i in 0..(w * h * 4) {
            body.push((i % 251) as u8);
        }
        pos += body.len() as u32;
        bodies.push(body);
    }
    for b in bodies {
        f.extend_from_slice(&b);
    }
    f
}

fn image(size: u32) -> CursorImage {
    CursorImage { size, width: 1, height: 1, xhot: 0, yhot: 0, pixels_rgba: vec![0; 4] }
}

#[test]
fn nearest_size_wins() {
    let imgs = vec![image(24), image(32), image(48), image(32)];
    assert_eq!(nearest_image(30, &imgs), Some(1));
    assert_eq!(nearest_image(24, &imgs), Some(0));
    assert_eq!(nearest_image(100, &imgs), Some(2));
    // Equally near: the first one.
    assert_eq!(nearest_image(28, &imgs), Some(0));
    assert_eq!(nearest_image(28, &Vec::new()), None);
}

#[test]
fn parse_and_pick() {
    let data = xcursor_file(&[(24, 3, 2), (32, 4, 4)]);
    let img = load_cursor_image(&data, 30).expect("parses");
    assert_eq!((img.size, img.width, img.height, img.xhot, img.yhot), (32, 4, 4, 1, 2));
    assert_eq!(img.pixels_rgba.len(), 64);
    assert_eq!(img.pixels_rgba[3], 3);
    let small = load_cursor_image(&data, 16).expect("parses");
    assert_eq!(small.size, 24);
    // Not an XCursor file.
    assert!(load_cursor_image(&vec![1, 2, 3], 24).is_none());
    // No image in it.
    assert!(load_cursor_image(&xcursor_file(&[]), 24).is_none());
    // A wanted size beyond i32 reads as negative (u32::MAX as -1): the smallest image wins.
    assert_eq!(load_cursor_image(&data, u32::MAX).expect("parses").size, 24);
}

#[test]
fn built_in_arrow() {
    let p = fallback_cursor_pixels();
    assert_eq!(p.len(), 16 * 16 * 4);
    let at = |x: usize, y: usize| p[(y * 16 + x) * 4];
    assert_eq!(at(0, 0), 255);
    assert_eq!(at(1, 0), 0);
    assert_eq!(at(5, 5), 255);
    assert_eq!(at(6, 5), 0);
    assert_eq!(at(10, 15), 255);
    assert_eq!(at(11, 15), 0);
}

#[test]
fn theme_order() {
    let env = vec!["  Breeze ".to_string(), "".to_string()];
    assert_eq!(
        cursor_theme_candidates(&env),
        vec!["Breeze", "Breeze_Light", "breeze_cursors", "Adwaita", "default"]
    );
    assert_eq!(cursor_theme_candidates(&Vec::new()).len(), 4);
}

#[test]
fn sizes_compare_as_wrapping_i32() {
    // u32::MAX reads as -1: 24 is nearer than 48.
    assert_eq!(nearest_image(u32::MAX, &vec![image(48), image(24)]), Some(1));
    // 0x8000_0000 reads as i32::MIN: against 0 the gap stays i32::MIN, the smallest.
    assert_eq!(nearest_image(0x8000_0000, &vec![image(1), image(0)]), Some(1));
}
