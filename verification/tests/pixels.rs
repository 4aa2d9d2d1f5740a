use river::adjust::{apply_adjustments, apply_adjustments_region};
use river::clip::{clean_clipboard_path, is_unicode_white_space};
use river::raster::RgbaBuffer;
use river::selection::{pixel_rect_from_corners, selection_pixels};
use river::state::ChannelAdjust;

fn identity_curve() -> [u8; 256] {
    let mut c = [0u8; 256];
    for (i, v) in c.iter_mut().enumerate() {
        *v = i as u8;
    }
    c
}

/// A w x h image whose pixel (x, y) is (x, y, x + y, 200).
fn gradient(w: u32, h: u32) -> RgbaBuffer {
    let mut data = Vec::new();
    for y in 0..h {
        for x in 0..w {
            data.extend_from_slice(&[x as u8, y as u8, (x + y) as u8, 200]);
        }
    }
    RgbaBuffer::from_raw(w, h, data).unwrap()
}

fn pixel(img: &RgbaBuffer, x: u32, y: u32) -> [u8; 4] {
    let i = (4 * (y * img.width() + x)) as usize;
    let b = img.as_bytes();
    [b[i], b[i + 1], b[i + 2], b[i + 3]]
}

fn neutral() -> ChannelAdjust {
    ChannelAdjust::neutral()
}

#[test]
fn from_raw_exact_length() {
    let b = RgbaBuffer::from_raw(2, 1, vec![1, 2, 3, 4, 5, 6, 7, 8]).unwrap();
    assert_eq!(b.width(), 2);
    assert_eq!(b.height(), 1);
    assert_eq!(b.as_bytes(), &[1, 2, 3, 4, 5, 6, 7, 8]);
}

#[test]
fn from_raw_drops_extra_samples() {
    let b = RgbaBuffer::from_raw(1, 1, vec![1, 2, 3, 4, 5, 6]).unwrap();
    assert_eq!(b.into_raw(), vec![1, 2, 3, 4]);
}

#[test]
fn from_raw_too_short_fails() {
    assert!(RgbaBuffer::from_raw(2, 2, vec![0; 15]).is_none());
    assert!(RgbaBuffer::from_raw(u32::MAX, u32::MAX, vec![0; 4]).is_none());
}

#[test]
fn from_raw_empty_image() {
    let b = RgbaBuffer::from_raw(0, 5, vec![]).unwrap();
    assert_eq!(b.width(), 0);
    assert_eq!(b.height(), 5);
    assert!(b.as_bytes().is_empty());
}

#[test]
fn pixel_rect_sorts_and_clamps() {
    assert_eq!(pixel_rect_from_corners((5, 2), (1, 8), (4, 10)), (1, 2, 3, 6));
    assert_eq!(pixel_rect_from_corners((1, 8), (5, 2), (4, 10)), (1, 2, 3, 6));
    assert_eq!(pixel_rect_from_corners((2, 3), (2, 3), (10, 10)), (2, 3, 1, 1));
    // Both corners on or beyond the far edge: the last pixel is selected.
    assert_eq!(pixel_rect_from_corners((20, 20), (30, 30), (10, 10)), (9, 9, 1, 1));
    assert_eq!(pixel_rect_from_corners((10, 3), (10, 7), (10, 10)), (9, 3, 1, 4));
    // An empty image: the start stays at zero.
    assert_eq!(pixel_rect_from_corners((4, 4), (6, 6), (0, 0)), (0, 0, 1, 1));
    assert_eq!(pixel_rect_from_corners((0, 0), (10, 10), (10, 10)), (0, 0, 10, 10));
}

#[test]
fn crop_copies_and_clamps() {
    let img = gradient(4, 3);
    let c = img.crop(1, 1, 2, 5);
    assert_eq!((c.width(), c.height()), (2, 2));
    assert_eq!(pixel(&c, 0, 0), [1, 1, 2, 200]);
    assert_eq!(pixel(&c, 1, 1), [2, 2, 4, 200]);
    let empty = img.crop(9, 0, 3, 3);
    assert_eq!((empty.width(), empty.height()), (0, 3));
}

#[test]
fn selection_pixels_copies_the_selection() {
    let img = gradient(5, 5);
    let sel = selection_pixels(&img, (3, 4), (1, 2));
    assert_eq!((sel.width(), sel.height()), (2, 2));
    assert_eq!(pixel(&sel, 0, 0), [1, 2, 3, 200]);
    assert_eq!(pixel(&sel, 1, 1), [2, 3, 5, 200]);
    // A selection on or past the far edge copies the last pixel.
    let corner = selection_pixels(&img, (7, 7), (9, 9));
    assert_eq!((corner.width(), corner.height()), (1, 1));
    assert_eq!(pixel(&corner, 0, 0), [4, 4, 8, 200]);
}

#[test]
fn neutral_adjustments_keep_the_image() {
    let img = gradient(3, 2);
    let id = identity_curve();
    let out = apply_adjustments(&img, &neutral(), &id, &id, |c| c);
    assert_eq!(out.width(), 3);
    assert_eq!(out.height(), 2);
    assert_eq!(out.as_bytes(), img.as_bytes());
}

#[test]
fn brightness_clamps_and_keeps_alpha() {
    let img = RgbaBuffer::from_raw(2, 1, vec![10, 250, 0, 7, 100, 100, 100, 255]).unwrap();
    let id = identity_curve();
    let a = ChannelAdjust { brightness: 10, red: 0, green: 0, blue: 0 };
    let out = apply_adjustments(&img, &a, &id, &id, |c| c);
    assert_eq!(out.as_bytes(), &[20, 255, 10, 7, 110, 110, 110, 255]);
    let a = ChannelAdjust { brightness: -255, red: 0, green: 0, blue: 0 };
    let out = apply_adjustments(&img, &a, &id, &id, |c| c);
    assert_eq!(out.as_bytes(), &[0, 0, 0, 7, 0, 0, 0, 255]);
}

#[test]
fn channel_offsets_apply_per_channel() {
    let img = RgbaBuffer::from_raw(1, 1, vec![100, 100, 100, 50]).unwrap();
    let id = identity_curve();
    let a = ChannelAdjust { brightness: 0, red: 20, green: -120, blue: 128 };
    let out = apply_adjustments(&img, &a, &id, &id, |c| c);
    assert_eq!(out.as_bytes(), &[120, 0, 228, 50]);
}

#[test]
fn curves_and_saturation_stage_run_in_order() {
    let img = RgbaBuffer::from_raw(1, 1, vec![10, 20, 30, 40]).unwrap();
    // contrast doubles (clamped), gamma adds one (clamped)
    let mut contrast = [0u8; 256];
    let mut gamma = [0u8; 256];
    for i in 0..256usize {
        contrast[i] = (2 * i).min(255) as u8;
        gamma[i] = (i + 1).min(255) as u8;
    }
    let a = ChannelAdjust { brightness: 5, red: 1, green: 0, blue: 0 };
    // red: ((10+5)*2 + 1) + 1 = 32; green: (25*2) + 1 = 51; blue: (35*2) + 1 = 71
    let out = apply_adjustments(&img, &a, &contrast, &gamma, |c| c);
    assert_eq!(out.as_bytes(), &[32, 51, 71, 40]);
    // the final stage sees the curved colour and decides the output
    let out = apply_adjustments(&img, &a, &contrast, &gamma, |(r, g, b)| (b, g, r));
    assert_eq!(out.as_bytes(), &[71, 51, 32, 40]);
}

#[test]
fn region_adjustment_leaves_the_rest_untouched() {
    let img = gradient(4, 4);
    let id = identity_curve();
    let a = ChannelAdjust { brightness: 0, red: 100, green: 0, blue: 0 };
    let out = apply_adjustments_region(&img, (1, 1, 2, 2), &a, &id, &id, |c| c);
    assert_eq!((out.width(), out.height()), (4, 4));
    for y in 0..4 {
        for x in 0..4 {
            let before = pixel(&img, x, y);
            let after = pixel(&out, x, y);
            if (1..3).contains(&x) && (1..3).contains(&y) {
                assert_eq!(after, [before[0] + 100, before[1], before[2], before[3]]);
            } else {
                assert_eq!(after, before);
            }
        }
    }
}

#[test]
fn region_adjustment_clamps_the_rect() {
    let img = gradient(3, 3);
    let id = identity_curve();
    let a = ChannelAdjust { brightness: 0, red: 0, green: 0, blue: 50 };
    let out = apply_adjustments_region(&img, (2, 0, 10, 1), &a, &id, &id, |c| c);
    for y in 0..3 {
        for x in 0..3 {
            let before = pixel(&img, x, y);
            let after = pixel(&out, x, y);
            if x == 2 && y == 0 {
                assert_eq!(after, [before[0], before[1], before[2] + 50, before[3]]);
            } else {
                assert_eq!(after, before);
            }
        }
    }
    // a rect past the far edge touches nothing
    let out = apply_adjustments_region(&img, (3, 3, 1, 1), &a, &id, &id, |c| c);
    assert_eq!(out.as_bytes(), img.as_bytes());
}

#[test]
fn clipboard_path_is_cleaned() {
    assert_eq!(clean_clipboard_path("  \"C:\\pics\\a.png\"\r\n"), "C:\\pics\\a.png");
    assert_eq!(clean_clipboard_path("/home/paul/b.jpg"), "/home/paul/b.jpg");
    assert_eq!(clean_clipboard_path("\"\"x y\"\""), "x y");
    assert_eq!(clean_clipboard_path(" \u{3000}\t "), "");
    assert_eq!(clean_clipboard_path("\" /tmp/c.png \""), " /tmp/c.png ");
    assert_eq!(clean_clipboard_path("a\"b"), "a\"b");
}

#[test]
fn white_space_matches_char_is_whitespace() {
    for v in 0..=0x10ffffu32 {
        if let Some(c) = char::from_u32(v) {
            assert_eq!(is_unicode_white_space(c), c.is_whitespace(), "U+{v:04X}");
        }
    }
}
