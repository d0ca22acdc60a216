//! From a layout box to a width and a height in pixels.
//!
//! A backend is expected to report a box whose greatest corner is not below
//! its least one, but nothing forces it to. Along an axis where the box is
//! inverted the extent is taken to be zero: such a box holds no pixel. Along
//! any other axis the extent is the exact difference, which always fits in a
//! `u32` even where it does not fit in an `i32`.

use vstd::prelude::*;
use crate::backend::LayoutBox;

verus! {

/// The length of the span from `min` to `max`: their difference, or zero
/// where `max` lies below `min`.
pub open spec fn extent(min: i32, max: i32) -> nat {
    if max >= min {
        (max - min) as nat
    } else {
        0
    }
}

/// The width and height of `layout`.
pub open spec fn box_extents(layout: LayoutBox) -> (u32, u32) {
    (extent(layout.0.0, layout.1.0) as u32, extent(layout.0.1, layout.1.1) as u32)
}

/// The width and height of a measured box; a failed measurement stays as it
/// is.
pub open spec fn measured_extents<E>(layout: Result<LayoutBox, E>) -> Result<(u32, u32), E> {
    match layout {
        Ok(found) => Ok(box_extents(found)),
        Err(e) => Err(e),
    }
}

/// Computes the extent of the span from `min` to `max`.
pub fn axis_extent(min: i32, max: i32) -> (len: u32)
    ensures
        len == extent(min, max),
{
    if max >= min {
        let wide: i64 = max as i64 - min as i64;
        wide as u32
    } else {
        0
    }
}

/// Computes the width and height of `layout`.
pub fn box_dimensions(layout: LayoutBox) -> (dims: (u32, u32))
    ensures
        dims == box_extents(layout),
        dims.0 == extent(layout.0.0, layout.1.0),
        dims.1 == extent(layout.0.1, layout.1.1),
{
    let ((min_x, min_y), (max_x, max_y)) = layout;
    (axis_extent(min_x, max_x), axis_extent(min_y, max_y))
}

/// Turns the outcome of a measurement into the outcome of asking for the
/// size: a box gives its width and height, an error is handed on untouched.
pub fn dimensions_of<E>(layout: Result<LayoutBox, E>) -> (dims: Result<(u32, u32), E>)
    ensures
        dims == measured_extents(layout),
{
    match layout {
        Ok(found) => Ok(box_dimensions(found)),
        Err(e) => Err(e),
    }
}

} // verus!
