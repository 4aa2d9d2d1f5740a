use vstd::prelude::*;

verus! {

/// The mathematical model of an RGBA image: its size and its samples in
/// row-major order, four per pixel (red, green, blue, alpha).
pub struct RasterView {
    pub width: nat,
    pub height: nat,
    pub bytes: Seq<u8>,
}

impl RasterView {
    /// The number of pixels.
    pub open spec fn pixel_count(self) -> int {
        (self.width * self.height) as int
    }

    /// Sample `c` (0 red, 1 green, 2 blue, 3 alpha) of the pixel at column
    /// `x`, row `y`.
    pub open spec fn sample(self, x: int, y: int, c: int) -> u8 {
        self.bytes[4 * (y * self.width + x) + c]
    }

    /// Whether two views have the same size.
    pub open spec fn same_size(self, other: RasterView) -> bool {
        self.width == other.width && self.height == other.height
    }
}

/// Clamps an integer into the range of a `u8` sample.
pub open spec fn clamp_byte(v: int) -> u8 {
    if v < 0 {
        0
    } else if v > 255 {
        255
    } else {
        v as u8
    }
}

/// The start (clamped to `limit`) and the length (clamped so that the span
/// ends inside `limit`) of one axis of a crop.
pub open spec fn crop_axis(start: nat, len: nat, limit: nat) -> (nat, nat) {
    let s = if start < limit { start } else { limit };
    let l = if len < limit - s { len } else { (limit - s) as nat };
    (s, l)
}

/// An RGBA image with 8-bit samples, stored row-major with four samples per
/// pixel. Its sample vector always holds exactly `4 * width * height`
/// samples.
pub struct RgbaBuffer {
    width: u32,
    height: u32,
    data: Vec<u8>,
}

impl View for RgbaBuffer {
    type V = RasterView;

    closed spec fn view(&self) -> RasterView {
        RasterView { width: self.width as nat, height: self.height as nat, bytes: self.data@ }
    }
}

impl RgbaBuffer {
    /// The buffer holds exactly four samples per pixel.
    #[verifier::type_invariant]
    pub open spec fn wf(&self) -> bool {
        self@.bytes.len() == 4 * (self@.width * self@.height)
    }

    /// Wraps a raw sample vector as an image of `width` x `height` pixels.
    ///
    /// Succeeds exactly when `4 * width * height` samples fit in memory and
    /// `bytes` holds at least that many; samples past the image are dropped.
    pub fn from_raw(width: u32, height: u32, bytes: Vec<u8>) -> (r: Option<RgbaBuffer>)
        ensures
            r is Some <==> (4 * (width * height) <= usize::MAX && 4 * (width * height)
                <= bytes@.len()),
            r matches Some(b) ==> b@.width == width && b@.height == height && b@.bytes
                == bytes@.take(4 * (width * height)),
    {
        let w = width as u128;
        let h = height as u128;
        assert(w * h <= 0xffff_ffff_ffff_ffffu128) by (nonlinear_arith)
            requires
                w <= 0xffff_ffff,
                h <= 0xffff_ffff,
        ;
        let needed: u128 = 4 * (w * h);
        if needed <= usize::MAX as u128 && needed <= bytes.len() as u128 {
            let mut data = bytes;
            data.truncate(needed as usize);
            Some(RgbaBuffer { width, height, data })
        } else {
            None
        }
    }

    /// Builds a buffer from samples that already fill `width` x `height`.
    pub(crate) fn from_samples(width: u32, height: u32, data: Vec<u8>) -> (b: RgbaBuffer)
        requires
            data@.len() == 4 * (width * height),
        ensures
            b@.width == width,
            b@.height == height,
            b@.bytes == data@,
    {
        RgbaBuffer { width, height, data }
    }

    /// The width in pixels.
    pub fn width(&self) -> (w: u32)
        ensures
            w == self@.width,
    {
        self.width
    }

    /// The height in pixels.
    pub fn height(&self) -> (h: u32)
        ensures
            h == self@.height,
    {
        self.height
    }

    /// The samples, row-major, four per pixel.
    pub fn as_bytes(&self) -> (s: &[u8])
        ensures
            s@ == self@.bytes,
    {
        self.data.as_slice()
    }

    /// The `(x, y, width, height)` region of the image, clamped to it the
    /// way a crop clamps: the origin is clamped into the image and the size
    /// so that the region ends inside it.
    pub fn crop(&self, x: u32, y: u32, width: u32, height: u32) -> (out: RgbaBuffer)
        ensures
            out@.width == crop_axis(x as nat, width as nat, self@.width).1,
            out@.height == crop_axis(y as nat, height as nat, self@.height).1,
            forall|i: int, j: int, c: int|
                0 <= i < out@.width && 0 <= j < out@.height && 0 <= c < 4 ==> #[trigger] out@.sample(
                    i,
                    j,
                    c,
                ) == self@.sample(
                    crop_axis(x as nat, width as nat, self@.width).0 + i,
                    crop_axis(y as nat, height as nat, self@.height).0 + j,
                    c,
                ),
    {
        image_crop(self, x, y, width, height)
    }

    /// Gives back the sample vector.
    pub fn into_raw(self) -> (v: Vec<u8>)
        ensures
            v@ == self@.bytes,
    {
        self.data
    }
}

/// `image::imageops::brighten` on an RGBA image: every colour sample
/// becomes `clamp(sample + value, 0, 255)`, alpha is copied, and the size
/// is kept. The sum is computed in `i32`, so `value` must leave room for
/// the largest sample.
#[verifier::external_body]
pub(crate) fn image_brighten(src: &RgbaBuffer, value: i32) -> (out: RgbaBuffer)
    requires
        value <= i32::MAX - 255,
    ensures
        out@.same_size(src@),
        forall|p: int, k: int|
            0 <= p < src@.pixel_count() && 0 <= k < 3 ==> #[trigger] out@.bytes[4 * p + k]
                == clamp_byte(src@.bytes[4 * p + k] + value),
        forall|p: int| 0 <= p < src@.pixel_count() ==> #[trigger] out@.bytes[4 * p + 3]
            == src@.bytes[4 * p + 3],
{
    let img = image::RgbaImage::from_raw(src.width, src.height, src.data.clone()).unwrap();
    let out = image::imageops::brighten(&img, value);
    RgbaBuffer { width: out.width(), height: out.height(), data: out.into_raw() }
}

/// `image::imageops::crop_imm` followed by `to_image`: the origin is
/// clamped into the image, the size is clamped so that the crop ends inside
/// it, and the pixels of that rectangle are copied out.
#[verifier::external_body]
pub(crate) fn image_crop(src: &RgbaBuffer, x: u32, y: u32, width: u32, height: u32) -> (out: RgbaBuffer)
    ensures
        (out@.width, out@.height) == (crop_axis(x as nat, width as nat, src@.width).1, crop_axis(
            y as nat,
            height as nat,
            src@.height,
        ).1),
        forall|i: int, j: int, c: int|
            0 <= i < out@.width && 0 <= j < out@.height && 0 <= c < 4 ==> #[trigger] out@.sample(
                i,
                j,
                c,
            ) == src@.sample(
                crop_axis(x as nat, width as nat, src@.width).0 + i,
                crop_axis(y as nat, height as nat, src@.height).0 + j,
                c,
            ),
{
    let img = image::RgbaImage::from_raw(src.width, src.height, src.data.clone()).unwrap();
    let out = image::imageops::crop_imm(&img, x, y, width, height).to_image();
    RgbaBuffer { width: out.width(), height: out.height(), data: out.into_raw() }
}

/// `image::imageops::replace` on a copy of `bottom`: every pixel of
/// `bottom` that lies under `top` placed with its top-left corner at
/// `(x, y)` takes `top`'s pixel; every other pixel is kept.
#[verifier::external_body]
pub(crate) fn image_replace(bottom: &RgbaBuffer, top: &RgbaBuffer, x: i64, y: i64) -> (out: RgbaBuffer)
    ensures
        out@.same_size(bottom@),
        forall|px: int, py: int, c: int|
            0 <= px < bottom@.width && 0 <= py < bottom@.height && 0 <= c < 4
                ==> #[trigger] out@.sample(px, py, c) == (if x <= px < x + top@.width && y <= py < y
                + top@.height {
                top@.sample(px - x, py - y, c)
            } else {
                bottom@.sample(px, py, c)
            }),
{
    let mut img = image::RgbaImage::from_raw(bottom.width, bottom.height, bottom.data.clone()).unwrap();
    let overlay = image::RgbaImage::from_raw(top.width, top.height, top.data.clone()).unwrap();
    image::imageops::replace(&mut img, &overlay, x, y);
    RgbaBuffer { width: img.width(), height: img.height(), data: img.into_raw() }
}

} // verus!
