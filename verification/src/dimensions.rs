//! Character-grid layout for down-sampling an image: how many columns and
//! rows the output gets and how many source pixels feed one character cell.
//!
//! One axis drives the layout. The driving extent is clamped to the target
//! size and fixes the tile extent along that axis; the tile extent along the
//! other axis follows from the terminal character aspect ratio, which the
//! caller applies between the two halves of the computation. A layout input
//! that would force a division by zero is rejected as `InvalidDimension`
//! rather than silently producing a zero or wrapped-around grid.

use vstd::prelude::*;
use crate::UtilError;

verus! {

/// Preferred image resize direction: which output dimension (width in
/// columns or height in rows) is the driving constraint of the layout.
#[derive(Debug, PartialEq, Eq, Structural, Clone, Copy)]
pub enum ResizingDimension {
    Width,
    Height,
}

impl Default for ResizingDimension {
    /// Width drives the layout unless a caller chooses otherwise.
    fn default() -> (d: Self)
        ensures
            d == ResizingDimension::Width,
    {
        ResizingDimension::Width
    }
}

/// A column count after the border adjustment: a border costs exactly two
/// columns, floored at zero.
pub open spec fn border_trimmed(columns: int, border: bool) -> int {
    if border {
        if columns >= 2 {
            columns - 2
        } else {
            0
        }
    } else {
        columns
    }
}

/// The column count a width-driven layout uses: the target size clamped to
/// the image width, then border-adjusted.
pub open spec fn effective_columns(target_size: u32, width: u32, border: bool) -> int {
    border_trimmed(
        if width > target_size {
            target_size as int
        } else {
            width as int
        },
        border,
    )
}

/// The row count a height-driven layout uses: the target size clamped to
/// the image height.
pub open spec fn effective_rows(target_size: u32, height: u32) -> int {
    if height > target_size {
        target_size as int
    } else {
        height as int
    }
}

/// First half of a width-driven layout: the column count and the tile
/// width, before the aspect-ratio scale enters.
///
/// Fails exactly when the effective column count is zero — when the target
/// size or the image width is zero, or a border eats the last columns — the
/// inputs on which the tile width would divide by zero.
pub fn width_axis_plan(target_size: u32, width: u32, border: bool) -> (r: Result<
    (u32, u32),
    UtilError,
>)
    ensures
        effective_columns(target_size, width, border) == 0 ==> r == Err::<(u32, u32), UtilError>(
            UtilError::InvalidDimension,
        ),
        effective_columns(target_size, width, border) > 0 ==> (r matches Ok(p) && p.0
            == effective_columns(target_size, width, border) && p.1 == width as int / p.0 as int),
{
    let clamped = if width > target_size {
        target_size
    } else {
        width
    };
    let columns = if border {
        if clamped >= 2 {
            clamped - 2
        } else {
            0
        }
    } else {
        clamped
    };
    if columns == 0 {
        return Err(UtilError::InvalidDimension);
    }
    Ok((columns, width / columns))
}

/// Second half of a width-driven layout: the row count, once the caller has
/// turned the tile width and the aspect-ratio scale into a tile height.
///
/// Fails exactly when the tile height is zero, the one input on which the
/// row count would divide by zero.
pub fn rows_for_tile_height(height: u32, tile_height: u32) -> (r: Result<u32, UtilError>)
    ensures
        tile_height == 0 ==> r == Err::<u32, UtilError>(UtilError::InvalidDimension),
        tile_height > 0 ==> (r matches Ok(rows) && rows == height as int / tile_height as int),
{
    if tile_height == 0 {
        return Err(UtilError::InvalidDimension);
    }
    Ok(height / tile_height)
}

/// First half of a height-driven layout: the row count and the tile height.
///
/// Fails exactly when the effective row count is zero — when the target
/// size or the image height is zero — the inputs on which the tile height
/// would divide by zero.
pub fn height_axis_plan(target_size: u32, height: u32) -> (r: Result<(u32, u32), UtilError>)
    ensures
        effective_rows(target_size, height) == 0 ==> r == Err::<(u32, u32), UtilError>(
            UtilError::InvalidDimension,
        ),
        effective_rows(target_size, height) > 0 ==> (r matches Ok(p) && p.0 == effective_rows(
            target_size,
            height,
        ) && p.1 == height as int / p.0 as int),
{
    let rows = if height > target_size {
        target_size
    } else {
        height
    };
    if rows == 0 {
        return Err(UtilError::InvalidDimension);
    }
    Ok((rows, height / rows))
}

/// Second half of a height-driven layout: the column count, once the caller
/// has turned the tile height and the aspect-ratio scale into a tile width;
/// a border again costs two columns, floored at zero.
///
/// Fails exactly when the tile width is zero, the one input on which the
/// column count would divide by zero.
pub fn columns_for_tile_width(width: u32, tile_width: u32, border: bool) -> (r: Result<
    u32,
    UtilError,
>)
    ensures
        tile_width == 0 ==> r == Err::<u32, UtilError>(UtilError::InvalidDimension),
        tile_width > 0 ==> (r matches Ok(c) && c == border_trimmed(
            width as int / tile_width as int,
            border,
        )),
{
    if tile_width == 0 {
        return Err(UtilError::InvalidDimension);
    }
    let raw = width / tile_width;
    let columns = if border {
        if raw >= 2 {
            raw - 2
        } else {
            0
        }
    } else {
        raw
    };
    Ok(columns)
}

} // verus!
