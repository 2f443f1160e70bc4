//! The physical page: size, margins, and evenly spaced column boundaries
//! across the inner width.

use vstd::arithmetic::div_mod::lemma_basic_div;
use vstd::prelude::*;

use crate::errors::LayoutError;
use crate::units::{DEFAULT_MARGIN, MAX_DIM};

verus! {

/// An immutable physical page, in layout units (eighths of a millimetre):
/// overall size and a symmetric margin on each side.
pub struct PageSize {
    pub width: i64,
    pub height: i64,
    pub margin_width: i64,
    pub margin_height: i64,
}

#[allow(non_snake_case)]
impl PageSize {
    /// Well-formed page: positive margins, room left inside them, and
    /// dimensions small enough that no coordinate arithmetic can overflow.
    pub open spec fn wf(&self) -> bool {
        &&& 0 < self.margin_width
        &&& 0 < self.margin_height
        &&& 2 * self.margin_width < self.width <= MAX_DIM
        &&& 2 * self.margin_height < self.height <= MAX_DIM
    }

    /// Width of the area inside the margins.
    pub open spec fn inner_width(&self) -> int {
        self.width - 2 * self.margin_width
    }

    /// Height of the area inside the margins.
    pub open spec fn inner_height(&self) -> int {
        self.height - 2 * self.margin_height
    }

    /// A1 paper, 594 mm x 841 mm, 10 mm margins.
    pub fn A1() -> (p: PageSize)
        ensures
            p.wf(),
            p.width == 4752 && p.height == 6728,
            p.margin_width == DEFAULT_MARGIN && p.margin_height == DEFAULT_MARGIN,
    {
        PageSize { width: 4752, height: 6728, margin_width: DEFAULT_MARGIN, margin_height: DEFAULT_MARGIN }
    }

    /// A2 paper, 420 mm x 594 mm, 10 mm margins.
    pub fn A2() -> (p: PageSize)
        ensures
            p.wf(),
            p.width == 3360 && p.height == 4752,
            p.margin_width == DEFAULT_MARGIN && p.margin_height == DEFAULT_MARGIN,
    {
        PageSize { width: 3360, height: 4752, margin_width: DEFAULT_MARGIN, margin_height: DEFAULT_MARGIN }
    }

    /// A3 paper, 297 mm x 420 mm, 10 mm margins.
    pub fn A3() -> (p: PageSize)
        ensures
            p.wf(),
            p.width == 2376 && p.height == 3360,
            p.margin_width == DEFAULT_MARGIN && p.margin_height == DEFAULT_MARGIN,
    {
        PageSize { width: 2376, height: 3360, margin_width: DEFAULT_MARGIN, margin_height: DEFAULT_MARGIN }
    }

    /// A4 paper, 210 mm x 297 mm, 10 mm margins.
    pub fn A4() -> (p: PageSize)
        ensures
            p.wf(),
            p.width == 1680 && p.height == 2376,
            p.margin_width == DEFAULT_MARGIN && p.margin_height == DEFAULT_MARGIN,
    {
        PageSize { width: 1680, height: 2376, margin_width: DEFAULT_MARGIN, margin_height: DEFAULT_MARGIN }
    }

    /// A5 paper, 148 mm x 210 mm, 10 mm margins.
    pub fn A5() -> (p: PageSize)
        ensures
            p.wf(),
            p.width == 1184 && p.height == 1680,
            p.margin_width == DEFAULT_MARGIN && p.margin_height == DEFAULT_MARGIN,
    {
        PageSize { width: 1184, height: 1680, margin_width: DEFAULT_MARGIN, margin_height: DEFAULT_MARGIN }
    }
}

/// The x position of boundary `column_index` when the inner width is split
/// into `columns` evenly sized slices (integer division truncates the slice
/// width).
pub open spec fn even_column_x(g: PageSize, column_index: int, columns: int) -> int
    recommends
        columns >= 1,
{
    g.margin_width + (g.inner_width() / columns) * column_index
}

/// `y` clamped from above by `limit`. The clamp is deliberately one-sided:
/// no lower bound of zero is enforced.
pub open spec fn clamp_above(limit: int, y: int) -> int {
    if y < limit {
        y
    } else {
        limit
    }
}

/// Boundary of an evenly spaced column grid: `x` is the left edge of slice
/// `column_index` of `columns` equal slices of the inner width, and the
/// candidate `y` is clamped into the inner height from above only.
///
/// Fails with `IndexOutOfRange` exactly when `column_index >= columns`.
pub fn calculate_column_coordinates(
    page_size: &PageSize,
    column_index: usize,
    columns: usize,
    y: i64,
) -> (r: Result<(i64, i64), LayoutError>)
    requires
        page_size.wf(),
    ensures
        column_index < columns ==> (r matches Ok(p)
            && p.0 == even_column_x(*page_size, column_index as int, columns as int)
            && p.1 == clamp_above(page_size.inner_height(), y as int)),
        column_index >= columns ==> r == Err::<(i64, i64), LayoutError>(LayoutError::IndexOutOfRange),
{
    if column_index >= columns {
        return Err(LayoutError::IndexOutOfRange);
    }
    let inner_w: i64 = page_size.width - 2 * page_size.margin_width;
    let inner_h: i64 = page_size.height - 2 * page_size.margin_height;
    let column_size: u64 = (inner_w as u64) / (columns as u64);
    proof {
        let cs = column_size as int;
        let ci = column_index as int;
        if columns as int > inner_w as int {
            lemma_basic_div(inner_w as int, columns as int);
            assert(cs == 0);
        } else {
            vstd::arithmetic::div_mod::lemma_div_is_ordered_by_denominator(
                inner_w as int,
                1,
                columns as int,
            );
            assert(inner_w as int / 1 == inner_w as int);
        }
        assert(cs * ci <= 0x1_0000_0000_0000) by (nonlinear_arith)
            requires
                0 <= cs,
                0 <= ci,
                cs <= 0x100_0000,
                cs >= 1 ==> ci <= 0x100_0000,
        ;
    }
    let offset: u64 = column_size * (column_index as u64);
    let x: i64 = page_size.margin_width + (offset as i64);
    let y_clamped: i64 = if y < inner_h {
        y
    } else {
        inner_h
    };
    Ok((x, y_clamped))
}

} // verus!
