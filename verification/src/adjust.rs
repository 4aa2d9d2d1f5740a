use vstd::prelude::*;
use crate::raster::{RasterView, RgbaBuffer, clamp_byte, crop_axis, image_brighten, image_crop, image_replace};
use crate::state::ChannelAdjust;

verus! {

/// One colour sample after the integer stages of the adjustment pipeline:
/// brightness offset (clamped), the contrast curve, the channel offset
/// (clamped), then the gamma curve.
pub open spec fn adjusted_channel(b: u8, brightness: i32, contrast: Seq<u8>, offset: i32, gamma: Seq<u8>) -> u8 {
    gamma[clamp_byte(contrast[clamp_byte(b + brightness) as int] + offset) as int]
}

/// The colour of a pixel after the integer stages, before saturation.
pub open spec fn adjusted_color(r: u8, g: u8, b: u8, adjust: ChannelAdjust, contrast: Seq<u8>, gamma: Seq<u8>) -> (u8, u8, u8) {
    (
        adjusted_channel(r, adjust.brightness, contrast, adjust.red, gamma),
        adjusted_channel(g, adjust.brightness, contrast, adjust.green, gamma),
        adjusted_channel(b, adjust.brightness, contrast, adjust.blue, gamma),
    )
}

/// Whether pixel `(px, py)` of `v` lies inside `rect = (x, y, width, height)`
/// once the rectangle is clamped to the image the way a crop clamps it.
pub open spec fn in_clamped_rect(v: RasterView, rect: (u32, u32, u32, u32), px: int, py: int) -> bool {
    let (cx, cw) = crop_axis(rect.0 as nat, rect.2 as nat, v.width);
    let (cy, ch) = crop_axis(rect.1 as nat, rect.3 as nat, v.height);
    cx <= px < cx + cw && cy <= py < cy + ch
}

/// Contrast curve, channel offset, gamma curve on one brightened sample.
fn curve_sample(b: u8, contrast: &[u8; 256], offset: i32, gamma: &[u8; 256]) -> (v: u8)
    requires
        offset <= i32::MAX - 255,
    ensures
        v == gamma@[clamp_byte(contrast@[b as int] + offset) as int],
{
    let c = contrast[b as usize];
    let s: i64 = c as i64 + offset as i64;
    let k: u8 = if s < 0 {
        0
    } else if s > 255 {
        255
    } else {
        s as u8
    };
    gamma[k as usize]
}

/// Applies the colour adjustments to every pixel of `src`.
///
/// Each colour sample goes through the brightness offset (clamped to
/// 0..=255), the `contrast` curve, its channel's offset (clamped), and the
/// `gamma` curve; the three results are then handed to `saturate`, whose
/// answer becomes the pixel's colour. Alpha is copied unchanged and the size
/// is kept. With neutral offsets, identity curves and a `saturate` that
/// returns its argument, the image comes back unchanged.
pub fn apply_adjustments<F: Fn((u8, u8, u8)) -> (u8, u8, u8)>(
    src: &RgbaBuffer,
    adjust: &ChannelAdjust,
    contrast: &[u8; 256],
    gamma: &[u8; 256],
    saturate: F,
) -> (out: RgbaBuffer)
    requires
        adjust.in_range(),
        forall|t: (u8, u8, u8)| #[trigger] call_requires(saturate, (t,)),
    ensures
        out@.same_size(src@),
        forall|p: int|
            0 <= p < src@.pixel_count() ==> call_ensures(
                saturate,
                (
                    #[trigger] adjusted_color(
                        src@.bytes[4 * p],
                        src@.bytes[4 * p + 1],
                        src@.bytes[4 * p + 2],
                        *adjust,
                        contrast@,
                        gamma@,
                    ),
                ),
                (out@.bytes[4 * p], out@.bytes[4 * p + 1], out@.bytes[4 * p + 2]),
            ),
        forall|p: int|
            0 <= p < src@.pixel_count() ==> #[trigger] out@.bytes[4 * p + 3] == src@.bytes[4 * p + 3],
        adjust.is_neutral() && is_identity_curve(contrast@) && is_identity_curve(gamma@) && (forall|
            t: (u8, u8, u8),
            u: (u8, u8, u8),
        | #[trigger] call_ensures(saturate, (t,), u) ==> u == t) ==> out@ == src@,
{
    proof {
        use_type_invariant(src);
    }
    let bright = image_brighten(src, adjust.brightness);
    proof {
        use_type_invariant(&bright);
    }
    let bytes = bright.as_bytes();
    let len: usize = bytes.len();
    let n: usize = len / 4;
    let mut data: Vec<u8> = Vec::new();
    let mut p: usize = 0;
    while p < n
        invariant
            n == src@.pixel_count(),
            bytes@ == bright@.bytes,
            bytes@.len() == 4 * n,
            4 * n <= usize::MAX,
            src@.bytes.len() == 4 * n,
            p <= n,
            data@.len() == 4 * p,
            adjust.in_range(),
            forall|t: (u8, u8, u8)| #[trigger] call_requires(saturate, (t,)),
            forall|q: int, k: int|
                0 <= q < src@.pixel_count() && 0 <= k < 3 ==> #[trigger] bright@.bytes[4 * q + k]
                    == clamp_byte(src@.bytes[4 * q + k] + adjust.brightness),
            forall|q: int| 0 <= q < src@.pixel_count() ==> #[trigger] bright@.bytes[4 * q + 3]
                == src@.bytes[4 * q + 3],
            forall|q: int|
                0 <= q < p ==> call_ensures(
                    saturate,
                    (
                        #[trigger] adjusted_color(
                            src@.bytes[4 * q],
                            src@.bytes[4 * q + 1],
                            src@.bytes[4 * q + 2],
                            *adjust,
                            contrast@,
                            gamma@,
                        ),
                    ),
                    (data@[4 * q], data@[4 * q + 1], data@[4 * q + 2]),
                ),
            forall|q: int| 0 <= q < p ==> #[trigger] data@[4 * q + 3] == src@.bytes[4 * q + 3],
        decreases n - p,
    {
        let i = 4 * p;
        let r = curve_sample(bytes[i], contrast, adjust.red, gamma);
        let g = curve_sample(bytes[i + 1], contrast, adjust.green, gamma);
        let b = curve_sample(bytes[i + 2], contrast, adjust.blue, gamma);
        let a = bytes[i + 3];
        proof {
            assert(bright@.bytes[4 * p + 0] == clamp_byte(src@.bytes[4 * p + 0] + adjust.brightness));
            assert(bright@.bytes[4 * p + 1] == clamp_byte(src@.bytes[4 * p + 1] + adjust.brightness));
            assert(bright@.bytes[4 * p + 2] == clamp_byte(src@.bytes[4 * p + 2] + adjust.brightness));
            assert(bright@.bytes[4 * p + 3] == src@.bytes[4 * p + 3]);
        }
        let ghost color = adjusted_color(
            src@.bytes[4 * p as int],
            src@.bytes[4 * p + 1],
            src@.bytes[4 * p + 2],
            *adjust,
            contrast@,
            gamma@,
        );
        assert((r, g, b) == color);
        let out_color = saturate((r, g, b));
        let ghost before = data@;
        data.push(out_color.0);
        data.push(out_color.1);
        data.push(out_color.2);
        data.push(a);
        proof {
            assert forall|q: int| 0 <= q < p + 1 implies call_ensures(
                saturate,
                (
                    #[trigger] adjusted_color(
                        src@.bytes[4 * q],
                        src@.bytes[4 * q + 1],
                        src@.bytes[4 * q + 2],
                        *adjust,
                        contrast@,
                        gamma@,
                    ),
                ),
                (data@[4 * q], data@[4 * q + 1], data@[4 * q + 2]),
            ) by {
                if q < p {
                    assert(data@[4 * q] == before[4 * q]);
                    assert(data@[4 * q + 1] == before[4 * q + 1]);
                    assert(data@[4 * q + 2] == before[4 * q + 2]);
                }
            }
            assert forall|q: int| 0 <= q < p + 1 implies #[trigger] data@[4 * q + 3] == src@.bytes[4 * q + 3] by {
                if q < p {
                    assert(data@[4 * q + 3] == before[4 * q + 3]);
                }
            }
        }
        p = p + 1;
    }
    let out = RgbaBuffer::from_samples(src.width(), src.height(), data);
    proof {
        if adjust.is_neutral() && is_identity_curve(contrast@) && is_identity_curve(gamma@) && (forall|
            t: (u8, u8, u8),
            u: (u8, u8, u8),
        | #[trigger] call_ensures(saturate, (t,), u) ==> u == t) {
            assert forall|i: int| 0 <= i < out@.bytes.len() implies out@.bytes[i] == src@.bytes[i] by {
                let q = i / 4;
                let k = i % 4;
                assert(i == 4 * q + k);
                neutral_adjustment_keeps_color(
                    src@.bytes[4 * q],
                    src@.bytes[4 * q + 1],
                    src@.bytes[4 * q + 2],
                    *adjust,
                    contrast@,
                    gamma@,
                );
                if k == 3 {
                    assert(out@.bytes[4 * q + 3] == src@.bytes[4 * q + 3]);
                } else {
                    assert(call_ensures(
                        saturate,
                        (
                            adjusted_color(
                                src@.bytes[4 * q],
                                src@.bytes[4 * q + 1],
                                src@.bytes[4 * q + 2],
                                *adjust,
                                contrast@,
                                gamma@,
                            ),
                        ),
                        (data@[4 * q], data@[4 * q + 1], data@[4 * q + 2]),
                    ));
                }
            }
            assert(out@.bytes =~= src@.bytes);
        }
    }
    out
}

/// `j * w + i` is a pixel index of a `w` x `h` image when `i < w`, `j < h`.
proof fn lemma_pixel_index(i: int, j: int, w: int, h: int)
    requires
        0 <= i < w,
        0 <= j < h,
    ensures
        0 <= j * w + i < w * h,
{
    assert(0 <= j * w + i < w * h) by (nonlinear_arith)
        requires
            0 <= i < w,
            0 <= j < h,
    ;
}

/// Applies the colour adjustments to the `rect = (x, y, width, height)`
/// region of `img` only.
///
/// The rectangle is clamped to the image the way a crop clamps it; every
/// pixel inside the clamped rectangle is adjusted exactly as
/// `apply_adjustments` adjusts a pixel, and every pixel outside it is left
/// byte-for-byte untouched. The size of the image is kept.
pub fn apply_adjustments_region<F: Fn((u8, u8, u8)) -> (u8, u8, u8)>(
    img: &RgbaBuffer,
    rect: (u32, u32, u32, u32),
    adjust: &ChannelAdjust,
    contrast: &[u8; 256],
    gamma: &[u8; 256],
    saturate: F,
) -> (out: RgbaBuffer)
    requires
        adjust.in_range(),
        forall|t: (u8, u8, u8)| #[trigger] call_requires(saturate, (t,)),
    ensures
        out@.same_size(img@),
        forall|px: int, py: int|
            0 <= px < img@.width && 0 <= py < img@.height && in_clamped_rect(img@, rect, px, py)
                ==> call_ensures(
                saturate,
                (
                    #[trigger] adjusted_color(
                        img@.sample(px, py, 0),
                        img@.sample(px, py, 1),
                        img@.sample(px, py, 2),
                        *adjust,
                        contrast@,
                        gamma@,
                    ),
                ),
                (out@.sample(px, py, 0), out@.sample(px, py, 1), out@.sample(px, py, 2)),
            ) && out@.sample(px, py, 3) == img@.sample(px, py, 3),
        forall|px: int, py: int, c: int|
            0 <= px < img@.width && 0 <= py < img@.height && 0 <= c < 4 && !in_clamped_rect(
                img@,
                rect,
                px,
                py,
            ) ==> #[trigger] out@.sample(px, py, c) == img@.sample(px, py, c),
{
    let (x, y, w, h) = rect;
    let region = image_crop(img, x, y, w, h);
    let adjusted = apply_adjustments(&region, adjust, contrast, gamma, saturate);
    let out = image_replace(img, &adjusted, x as i64, y as i64);
    proof {
        let cx = crop_axis(x as nat, w as nat, img@.width).0;
        let cy = crop_axis(y as nat, h as nat, img@.height).0;
        let cw = region@.width;
        let ch = region@.height;
        assert forall|px: int, py: int|
            0 <= px < img@.width && 0 <= py < img@.height && in_clamped_rect(img@, rect, px, py)
                implies call_ensures(
                saturate,
                (
                    #[trigger] adjusted_color(
                        img@.sample(px, py, 0),
                        img@.sample(px, py, 1),
                        img@.sample(px, py, 2),
                        *adjust,
                        contrast@,
                        gamma@,
                    ),
                ),
                (out@.sample(px, py, 0), out@.sample(px, py, 1), out@.sample(px, py, 2)),
            ) && out@.sample(px, py, 3) == img@.sample(px, py, 3) by {
            let i = px - cx;
            let j = py - cy;
            assert(cx == x && cy == y);
            lemma_pixel_index(i, j, cw as int, ch as int);
            let q = j * cw + i;
            assert(region@.sample(i, j, 0) == img@.sample(px, py, 0));
            assert(region@.sample(i, j, 1) == img@.sample(px, py, 1));
            assert(region@.sample(i, j, 2) == img@.sample(px, py, 2));
            assert(region@.sample(i, j, 3) == img@.sample(px, py, 3));
            assert(out@.sample(px, py, 0) == adjusted@.sample(i, j, 0));
            assert(out@.sample(px, py, 1) == adjusted@.sample(i, j, 1));
            assert(out@.sample(px, py, 2) == adjusted@.sample(i, j, 2));
            assert(out@.sample(px, py, 3) == adjusted@.sample(i, j, 3));
            assert(adjusted@.bytes[4 * q + 3] == region@.bytes[4 * q + 3]);
            assert(adjusted_color(
                region@.bytes[4 * q],
                region@.bytes[4 * q + 1],
                region@.bytes[4 * q + 2],
                *adjust,
                contrast@,
                gamma@,
            ) == adjusted_color(
                img@.sample(px, py, 0),
                img@.sample(px, py, 1),
                img@.sample(px, py, 2),
                *adjust,
                contrast@,
                gamma@,
            ));
        }
        assert forall|px: int, py: int, c: int|
            0 <= px < img@.width && 0 <= py < img@.height && 0 <= c < 4 && !in_clamped_rect(
                img@,
                rect,
                px,
                py,
            ) implies #[trigger] out@.sample(px, py, c) == img@.sample(px, py, c) by {
            assert(out@.sample(px, py, c) == (if x <= px < x + adjusted@.width && y <= py < y
                + adjusted@.height {
                adjusted@.sample(px - x, py - y, c)
            } else {
                img@.sample(px, py, c)
            }));
        }
    }
    out
}

/// A 256-entry curve that maps every sample value to itself.
pub open spec fn is_identity_curve(c: Seq<u8>) -> bool {
    c.len() == 256 && forall|i: int| 0 <= i < 256 ==> #[trigger] c[i] == i
}

/// The neutral settings (all offsets zero) with identity curves leave every
/// colour unchanged: the integer stages of the pipeline do nothing.
pub proof fn neutral_adjustment_keeps_color(
    r: u8,
    g: u8,
    b: u8,
    adjust: ChannelAdjust,
    contrast: Seq<u8>,
    gamma: Seq<u8>,
)
    requires
        adjust.is_neutral(),
        is_identity_curve(contrast),
        is_identity_curve(gamma),
    ensures
        adjusted_color(r, g, b, adjust, contrast, gamma) == (r, g, b),
{
    assert(contrast[r as int] == r && contrast[g as int] == g && contrast[b as int] == b);
    assert(gamma[r as int] == r && gamma[g as int] == g && gamma[b as int] == b);
}

/// What the adjustments dialog does after a frame, given which of its
/// controls fired.
#[derive(Clone, Copy, Debug, PartialEq, Eq, Structural)]
pub struct AdjustDialogOutcome {
    /// Put the sliders back to their neutral values.
    pub reset_sliders: bool,
    /// Rebuild the live preview (at most once per frame).
    pub refresh_preview: bool,
    /// Bake the adjustments into the full-resolution image.
    pub apply: bool,
    /// Close the dialog.
    pub close: bool,
}

/// Reset All takes priority over a plain slider change (one preview rebuild
/// either way); Apply bakes the adjustments and closes the dialog; Cancel
/// (or the window's close button) only closes it.
pub fn adjust_dialog_outcome(reset_all: bool, changed: bool, apply: bool, cancel: bool) -> (o: AdjustDialogOutcome)
    ensures
        o == (AdjustDialogOutcome {
            reset_sliders: reset_all,
            refresh_preview: reset_all || changed,
            apply: apply,
            close: apply || cancel,
        }),
{
    AdjustDialogOutcome {
        reset_sliders: reset_all,
        refresh_preview: reset_all || changed,
        apply,
        close: apply || cancel,
    }
}

/// One colour sample through the integer stages, written out: the sample
/// plus the brightness offset is clamped into 0..=255 and looked up in the
/// contrast curve; the channel offset is added to that and the sum is
/// clamped into 0..=255 (never wrapped) before the gamma lookup.
pub proof fn adjusted_channel_is_clamped_lookup(
    b: u8,
    brightness: i32,
    contrast: Seq<u8>,
    offset: i32,
    gamma: Seq<u8>,
)
    requires
        contrast.len() == 256,
        gamma.len() == 256,
    ensures
        ({
            let lit = b + brightness;
            let i = if lit < 0 { 0 } else if lit > 255 { 255 } else { lit };
            let s = contrast[i] + offset;
            let j = if s < 0 { 0 } else if s > 255 { 255 } else { s };
            &&& adjusted_channel(b, brightness, contrast, offset, gamma) == gamma[j]
            &&& (s >= 255 ==> adjusted_channel(b, brightness, contrast, offset, gamma) == gamma[255])
            &&& (s <= 0 ==> adjusted_channel(b, brightness, contrast, offset, gamma) == gamma[0])
        }),
{
}

/// With identity curves a larger channel offset never gives a smaller
/// sample: the stage is monotone in the offset.
pub proof fn adjusted_channel_monotone_in_offset(
    b: u8,
    brightness: i32,
    contrast: Seq<u8>,
    o1: i32,
    o2: i32,
    gamma: Seq<u8>,
)
    requires
        is_identity_curve(contrast),
        is_identity_curve(gamma),
        o1 <= o2,
    ensures
        adjusted_channel(b, brightness, contrast, o1, gamma) <= adjusted_channel(
            b,
            brightness,
            contrast,
            o2,
            gamma,
        ),
{
    let lit = b + brightness;
    let i = if lit < 0 { 0 } else if lit > 255 { 255 } else { lit };
    assert(contrast[i] == i);
    let s1 = contrast[i] + o1;
    let s2 = contrast[i] + o2;
    let j1 = if s1 < 0 { 0 } else if s1 > 255 { 255 } else { s1 };
    let j2 = if s2 < 0 { 0 } else if s2 > 255 { 255 } else { s2 };
    assert(gamma[j1] == j1 && gamma[j2] == j2);
}

/// The region adjusted by `apply_adjustments_region` is exactly the part of
/// `[x, x + width) x [y, y + height)` that lies inside the image: its extent
/// along each axis depends only on that axis's origin and length.
pub proof fn clamped_rect_is_rect_inside_image(v: RasterView, rect: (u32, u32, u32, u32), px: int, py: int)
    ensures
        in_clamped_rect(v, rect, px, py) <==> (rect.0 <= px < rect.0 + rect.2 && rect.1 <= py < rect.1
            + rect.3 && 0 <= px < v.width && 0 <= py < v.height),
{
}

} // verus!
