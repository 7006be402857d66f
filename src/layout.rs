//! Sizes of the items whose extent depends on their content.
use crate::geometry::Vec2;
use vstd::prelude::*;

verus! {

/// The frame an image is fitted into.
pub const MAX_IMAGE_WIDTH: u32 = 800;
pub const MAX_IMAGE_HEIGHT: u32 = 534;

/// The room left around a text box's text, on each axis in total.
pub const TEXT_SELECTED_PADDING: u32 = 20;

/// The largest size, in whole units and keeping the image's proportions,
/// that fits the frame: the side that limits the scaling fills the frame,
/// the other is scaled alike and rounded down.
pub open spec fn fitted_size(width: int, height: int) -> (int, int) {
    if MAX_IMAGE_WIDTH * height < MAX_IMAGE_HEIGHT * width {
        (MAX_IMAGE_WIDTH as int, height * MAX_IMAGE_WIDTH / width)
    } else {
        (width * MAX_IMAGE_HEIGHT / height, MAX_IMAGE_HEIGHT as int)
    }
}

/// The size an image of `width` by `height` pixels is shown at.
pub fn fit_image_size(width: u32, height: u32) -> (r: (u32, u32))
    requires
        width > 0,
        height > 0,
    ensures
        (r.0 as int, r.1 as int) == fitted_size(width as int, height as int),
        r.0 <= MAX_IMAGE_WIDTH,
        r.1 <= MAX_IMAGE_HEIGHT,
{
    let w = width as u64;
    let h = height as u64;
    assert(800 * h <= 800 * 0xffff_ffffu64) by (nonlinear_arith)
        requires
            h <= 0xffff_ffffu64,
    ;
    assert(534 * w <= 534 * 0xffff_ffffu64) by (nonlinear_arith)
        requires
            w <= 0xffff_ffffu64,
    ;
    if 800 * h < 534 * w {
        let scaled = h * 800 / w;
        assert((h as int) * 800 / (w as int) < 534) by (nonlinear_arith)
            requires
                800 * h < 534 * w,
                w > 0,
        ;
        (800, scaled as u32)
    } else {
        let scaled = w * 534 / h;
        assert((w as int) * 534 / (h as int) <= 800) by (nonlinear_arith)
            requires
                800 * h >= 534 * w,
                h > 0,
        ;
        (scaled as u32, 534)
    }
}

/// The half extents of a text box whose text lays out at `width` by
/// `height`, padding included, rounded up so the text stays inside; `None`
/// while the text has no size yet.
pub fn textbox_half_extents(width: u32, height: u32) -> (r: Option<Vec2>)
    ensures
        r == if width == 0 && height == 0 {
            None
        } else {
            Some(
                Vec2 {
                    x: ((width + TEXT_SELECTED_PADDING + 1) / 2) as i64,
                    y: ((height + TEXT_SELECTED_PADDING + 1) / 2) as i64,
                },
            )
        },
{
    if width == 0 && height == 0 {
        return None;
    }
    let w = width as i64;
    let h = height as i64;
    Some(Vec2::new((w + 21) / 2, (h + 21) / 2))
}

} // verus!
