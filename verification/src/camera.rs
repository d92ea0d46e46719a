//! The camera's pixel addressing: where on the image plane the ray through a
//! pixel passes.
//!
//! A pixel is one unit wide and a ray passes through its centre, so offsets
//! from the plane's centre are odd multiples of one half. They are kept here
//! in half-pixel units, as exact integers; halving them is left to the caller.

use vstd::prelude::*;

verus! {

/// Twice the offset, along one axis of the plane, of the centre of pixel
/// `index` from the centre of the plane, where `extent` pixels are laid along
/// it: twice `-extent / 2 + (index + 1 / 2)`.
pub open spec fn half_pixel_offset(extent: int, index: int) -> int {
    2 * index + 1 - extent
}

/// The plane offsets of pixel `(x, y)`, in half-pixel units: first the one
/// along the plane's x direction, then the one along its y direction.
///
/// The x coordinate is measured against the image's `height` and the y
/// coordinate against its `width`. That pairing is the camera's addressing
/// convention; on an image that is not square it shifts the grid off the
/// plane's centre.
pub fn half_pixel_offsets(width: u32, height: u32, x: u32, y: u32) -> (r: (i64, i64))
    ensures
        r.0 == half_pixel_offset(height as int, x as int),
        r.1 == half_pixel_offset(width as int, y as int),
{
    let px: i64 = 2 * (x as i64) + 1 - (height as i64);
    let py: i64 = 2 * (y as i64) + 1 - (width as i64);
    (px, py)
}

/// Along an axis the pixel centres are one pixel apart and lie mirrored about
/// the plane's centre: the pixel as far from the end as `index` is from the
/// start has the opposite offset, and no pixel centre lies on the centre line.
pub proof fn lemma_half_pixel_offsets_are_centred(extent: int, index: int)
    ensures
        half_pixel_offset(extent, index + 1) == half_pixel_offset(extent, index) + 2,
        half_pixel_offset(extent, extent - 1 - index) == -half_pixel_offset(extent, index),
        extent % 2 == 0 ==> half_pixel_offset(extent, index) != 0,
{
}

} // verus!
