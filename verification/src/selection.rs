use vstd::prelude::*;
use crate::raster::{RgbaBuffer, crop_axis, image_crop};
use crate::state::{ResizeEdge, SelectionDragMode};

verus! {

/// The smaller of two naturals.
pub open spec fn min_nat(a: nat, b: nat) -> nat {
    if a <= b { a } else { b }
}

/// The larger of two naturals.
pub open spec fn max_nat(a: nat, b: nat) -> nat {
    if a >= b { a } else { b }
}

/// The last pixel coordinate of an axis of `size` pixels (0 when empty).
pub open spec fn last_index(size: nat) -> nat {
    if size >= 1 { (size - 1) as nat } else { 0 }
}

/// The image-pixel rectangle `(x, y, width, height)` spanned by two corners
/// that are already in image pixel space: the corners are sorted, the start
/// is clamped onto the last pixel of the image and the end onto the image
/// size, and the width and height are floored at one pixel. The rectangle
/// therefore lies inside any non-empty image.
pub open spec fn spec_pixel_rect(a: (u32, u32), b: (u32, u32), dim: (u32, u32)) -> (nat, nat, nat, nat) {
    let x1 = min_nat(min_nat(a.0 as nat, b.0 as nat), last_index(dim.0 as nat));
    let x2 = min_nat(max_nat(a.0 as nat, b.0 as nat), dim.0 as nat);
    let y1 = min_nat(min_nat(a.1 as nat, b.1 as nat), last_index(dim.1 as nat));
    let y2 = min_nat(max_nat(a.1 as nat, b.1 as nat), dim.1 as nat);
    let w = if x2 > x1 { (x2 - x1) as nat } else { 1 };
    let h = if y2 > y1 { (y2 - y1) as nat } else { 1 };
    (x1, y1, w, h)
}

/// Sorts two selection corners, already mapped into image pixel space, into
/// a rectangle `(x, y, width, height)` clamped to the image of size
/// `dim = (width, height)`, with width and height at least one pixel.
///
/// The mapping from screen space happens first (it depends on the flips),
/// and only then are the corners sorted.
pub fn pixel_rect_from_corners(a: (u32, u32), b: (u32, u32), dim: (u32, u32)) -> (r: (u32, u32, u32, u32))
    ensures
        (r.0 as nat, r.1 as nat, r.2 as nat, r.3 as nat) == spec_pixel_rect(a, b, dim),
{
    let (img_w, img_h) = dim;
    let last_x = if img_w >= 1 { img_w - 1 } else { 0 };
    let last_y = if img_h >= 1 { img_h - 1 } else { 0 };
    let mut x1 = if a.0 <= b.0 { a.0 } else { b.0 };
    let mut x2 = if a.0 >= b.0 { a.0 } else { b.0 };
    let mut y1 = if a.1 <= b.1 { a.1 } else { b.1 };
    let mut y2 = if a.1 >= b.1 { a.1 } else { b.1 };
    if x1 > last_x {
        x1 = last_x;
    }
    if y1 > last_y {
        y1 = last_y;
    }
    if x2 > img_w {
        x2 = img_w;
    }
    if y2 > img_h {
        y2 = img_h;
    }
    let width = if x2 > x1 { x2 - x1 } else { 1 };
    let height = if y2 > y1 { y2 - y1 } else { 1 };
    (x1, y1, width, height)
}

/// The rectangle does not depend on which corner the drag started from.
pub proof fn pixel_rect_is_symmetric(a: (u32, u32), b: (u32, u32), dim: (u32, u32))
    ensures
        spec_pixel_rect(a, b, dim) == spec_pixel_rect(b, a, dim),
{
}

/// The rectangle is at least one pixel wide and high, and for a non-empty
/// image it lies entirely inside the image.
pub proof fn pixel_rect_in_bounds(a: (u32, u32), b: (u32, u32), dim: (u32, u32))
    ensures
        ({
            let r = spec_pixel_rect(a, b, dim);
            &&& r.2 >= 1 && r.3 >= 1
            &&& dim.0 >= 1 ==> r.0 + r.2 <= dim.0
            &&& dim.1 >= 1 ==> r.1 + r.3 <= dim.1
        }),
{
}

/// When the corners lie in the image (at most on its far edge) and one of
/// them is left of (above) the far edge, the rectangle starts at the smaller
/// coordinate and spans to the larger one, floored at one pixel.
pub proof fn pixel_rect_of_corners_in_image(a: (u32, u32), b: (u32, u32), dim: (u32, u32))
    requires
        a.0 <= dim.0 && b.0 <= dim.0 && a.1 <= dim.1 && b.1 <= dim.1,
        min_nat(a.0 as nat, b.0 as nat) < dim.0,
        min_nat(a.1 as nat, b.1 as nat) < dim.1,
    ensures
        ({
            let r = spec_pixel_rect(a, b, dim);
            let x = min_nat(a.0 as nat, b.0 as nat);
            let y = min_nat(a.1 as nat, b.1 as nat);
            &&& r.0 == x && r.1 == y
            &&& r.2 == max_nat((max_nat(a.0 as nat, b.0 as nat) - x) as nat, 1)
            &&& r.3 == max_nat((max_nat(a.1 as nat, b.1 as nat) - y) as nat, 1)
        }),
{
}

/// The pixels of `img` under a selection whose corners are already mapped
/// into image pixel space: the rectangle of `pixel_rect_from_corners`,
/// cropped out of the image (the crop clamps it to the image again).
pub fn selection_pixels(img: &RgbaBuffer, a: (u32, u32), b: (u32, u32)) -> (out: RgbaBuffer)
    ensures
        ({
            let r = spec_pixel_rect(a, b, (img@.width as u32, img@.height as u32));
            let (cx, cw) = crop_axis(r.0, r.2, img@.width);
            let (cy, ch) = crop_axis(r.1, r.3, img@.height);
            &&& out@.width == cw
            &&& out@.height == ch
            &&& forall|i: int, j: int, c: int|
                0 <= i < cw && 0 <= j < ch && 0 <= c < 4 ==> #[trigger] out@.sample(i, j, c)
                    == img@.sample(cx + i, cy + j, c)
        }),
{
    let r = pixel_rect_from_corners(a, b, (img.width(), img.height()));
    image_crop(img, r.0, r.1, r.2, r.3)
}

/// The drag mode chosen when a primary-button drag starts.
///
/// `edge_at_origin` is the edge of the existing selection (if one counts as
/// existing) under the press point, and `inside_existing` whether the press
/// point lies inside that selection. Grabbing an edge resizes it; pressing
/// inside the box does nothing; anywhere else starts drawing a new box.
pub fn drag_mode_on_start(edge_at_origin: Option<ResizeEdge>, inside_existing: bool) -> (m: SelectionDragMode)
    ensures
        m == (match edge_at_origin {
            Some(e) => SelectionDragMode::Resizing(e),
            None => if inside_existing {
                SelectionDragMode::Idle
            } else {
                SelectionDragMode::Drawing
            },
        }),
{
    match edge_at_origin {
        Some(e) => SelectionDragMode::Resizing(e),
        None => if inside_existing {
            SelectionDragMode::Idle
        } else {
            SelectionDragMode::Drawing
        },
    }
}

/// The edge whose resize cursor is shown: while an edge is being dragged it
/// stays that edge, even if the pointer strays; otherwise the edge detected
/// under the pointer, if any.
pub fn hovered_edge(mode: SelectionDragMode, detected: Option<ResizeEdge>) -> (e: Option<ResizeEdge>)
    ensures
        e == (match mode {
            SelectionDragMode::Resizing(edge) => Some(edge),
            _ => detected,
        }),
{
    match mode {
        SelectionDragMode::Resizing(edge) => Some(edge),
        _ => detected,
    }
}

impl ResizeEdge {
    /// Left and right edges move horizontally (and get a horizontal resize
    /// cursor); top and bottom edges move vertically.
    pub fn is_horizontal(&self) -> (b: bool)
        ensures
            b == (*self == ResizeEdge::Left || *self == ResizeEdge::Right),
    {
        match self {
            ResizeEdge::Left | ResizeEdge::Right => true,
            _ => false,
        }
    }

    /// Left and top edges move the minimum corner of the box; right and
    /// bottom edges move the maximum corner.
    pub fn moves_min_corner(&self) -> (b: bool)
        ensures
            b == (*self == ResizeEdge::Left || *self == ResizeEdge::Top),
    {
        match self {
            ResizeEdge::Left | ResizeEdge::Top => true,
            _ => false,
        }
    }
}

} // verus!
