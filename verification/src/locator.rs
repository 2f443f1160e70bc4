//! Cell geometry: the text-anchor point of a cell and the four corners of
//! its border rectangle, for a given page, table, column and row-local row
//! number.

use vstd::arithmetic::div_mod::lemma_div_by_multiple;
use vstd::arithmetic::div_mod::lemma_div_is_ordered;
use vstd::arithmetic::mul::lemma_mul_inequality;
use vstd::arithmetic::mul::lemma_mul_upper_bound;
use vstd::prelude::*;

use crate::errors::LayoutError;
use crate::geometry::PageSize;
use crate::grid::{lemma_weight_prefix_mono, weight_prefix, Table};
use crate::units::{CELL_PADDING, MAX_DIM, MAX_ROWS};

verus! {

/// A 2D coordinate in layout units; `y` is measured from the page bottom.
#[derive(Clone, Copy, Debug, PartialEq, Eq, Structural)]
pub struct Point {
    pub x: i64,
    pub y: i64,
}

/// Horizontal offset, from the left margin, of the boundary after the first
/// `col` columns: the weight prefix's share of the inner width (integer
/// division by the grid unit count truncates).
pub open spec fn column_offset(g: PageSize, t: Table, col: int) -> int {
    (g.inner_width() * weight_prefix(t.columns@, col)) / (t.max_columns as int)
}

/// Left x of column `col`'s border rectangle.
pub open spec fn border_left_x(g: PageSize, t: Table, col: int) -> int {
    g.margin_width + column_offset(g, t, col)
}

/// Top y of the border rectangle of the row-local row `row_local`: half a
/// row height above the row's slot.
pub open spec fn border_top_y(pos_y: int, t: Table, row_local: int) -> int {
    pos_y - (t.row_height as int) / 2 - row_local * (t.row_height as int)
}

/// x of a cell's text anchor: the column boundary, pushed right by a
/// quarter row height when borders are drawn.
pub open spec fn anchor_x(g: PageSize, t: Table, col: int) -> int {
    border_left_x(g, t, col) + if t.borders {
        (t.row_height as int) / 4
    } else {
        0
    }
}

/// y of a cell's text anchor: one full row height per row below the
/// cursor, pushed down by the cell padding when borders are drawn.
pub open spec fn anchor_y(pos_y: int, t: Table, row_local: int) -> int {
    pos_y - (row_local + 1) * (t.row_height as int) - if t.borders {
        CELL_PADDING as int
    } else {
        0
    }
}

/// Computes `column_offset` and bounds it by the inner width.
fn column_offset_exec(page_size: &PageSize, table: &Table, col: usize) -> (q: i64)
    requires
        page_size.wf(),
        table.wf(),
        col <= table.columns@.len(),
    ensures
        q == column_offset(*page_size, *table, col as int),
        0 <= q <= page_size.inner_width(),
{
    let ghost cols = table.columns@;
    let ghost maxc = table.max_columns as int;
    let ncols = table.columns.len();
    let mut wsum: usize = 0;
    let mut i: usize = 0;
    while i < col
        invariant
            i <= col,
            col <= ncols,
            ncols == cols.len(),
            cols == table.columns@,
            table.wf(),
            wsum == weight_prefix(cols, i as int),
            wsum <= table.max_columns,
        decreases col - i,
    {
        proof {
            lemma_weight_prefix_mono(cols, i + 1 as int, cols.len() as int);
        }
        wsum = wsum + table.columns[i].width;
        i = i + 1;
    }
    let inner: i64 = page_size.width - 2 * page_size.margin_width;
    proof {
        lemma_mul_upper_bound(inner as int, MAX_DIM as int, wsum as int, MAX_DIM as int);
    }
    let num: u64 = (inner as u64) * (wsum as u64);
    let q64: u64 = num / (table.max_columns as u64);
    proof {
        lemma_mul_inequality(wsum as int, maxc, inner as int);
        lemma_div_is_ordered(num as int, inner as int * maxc, maxc);
        lemma_div_by_multiple(inner as int, maxc);
        vstd::arithmetic::div_mod::lemma_div_pos_is_pos(num as int, maxc);
    }
    q64 as i64
}

/// The four corners of the border rectangle of cell (`column_index`,
/// `row_num`), in the order top-left, top-right, bottom-right, bottom-left
/// (a closed, stroked, unfilled rectangle). `row_num` is row-local: rows
/// already committed to earlier pages do not count.
///
/// Fails with `IndexOutOfRange` exactly when the row or column index is at
/// or past its bound.
pub fn calculate_border_points(
    page_size: &PageSize,
    table: &Table,
    column_index: usize,
    row_num: usize,
) -> (r: Result<Vec<Point>, LayoutError>)
    requires
        page_size.wf(),
        table.wf(),
    ensures
        (row_num < table.rows@.len() && column_index < table.columns@.len()) ==> (r matches Ok(pts)
            && pts@.len() == 4
            && pts@[0].x == border_left_x(*page_size, *table, column_index as int)
            && pts@[0].y == border_top_y(table.position_y as int, *table, row_num as int)
            && pts@[1].x == border_left_x(*page_size, *table, column_index as int + 1)
            && pts@[1].y == border_top_y(table.position_y as int, *table, row_num as int)
            && pts@[2].x == border_left_x(*page_size, *table, column_index as int + 1)
            && pts@[2].y == border_top_y(table.position_y as int, *table, row_num as int)
                - table.row_height
            && pts@[3].x == border_left_x(*page_size, *table, column_index as int)
            && pts@[3].y == border_top_y(table.position_y as int, *table, row_num as int)
                - table.row_height),
        (row_num >= table.rows@.len() || column_index >= table.columns@.len()) ==> r == Err::<
            Vec<Point>,
            LayoutError,
        >(LayoutError::IndexOutOfRange),
{
    if row_num >= table.rows.len() {
        return Err(LayoutError::IndexOutOfRange);
    }
    if column_index >= table.columns.len() {
        return Err(LayoutError::IndexOutOfRange);
    }
    let left = page_size.margin_width + column_offset_exec(page_size, table, column_index);
    let right = page_size.margin_width + column_offset_exec(page_size, table, column_index + 1);
    let border_padding: i64 = ((table.row_height as u64) / 2) as i64;
    proof {
        lemma_mul_upper_bound(row_num as int, MAX_ROWS as int, table.row_height as int, MAX_DIM as int);
    }
    let top: i64 = table.position_y - border_padding - (row_num as i64) * table.row_height;
    let bottom: i64 = top - table.row_height;
    let pts: Vec<Point> = vec![
        Point { x: left, y: top },
        Point { x: right, y: top },
        Point { x: right, y: bottom },
        Point { x: left, y: bottom },
    ];
    Ok(pts)
}

/// The text-anchor point of cell (`column_index`, `row_num`); `row_num` is
/// row-local, as in `calculate_border_points`.
///
/// Fails with `IndexOutOfRange` exactly when the row or column index is at
/// or past its bound.
pub fn calculate_cell_coordinates(
    page_size: &PageSize,
    table: &Table,
    column_index: usize,
    row_num: usize,
) -> (r: Result<(i64, i64), LayoutError>)
    requires
        page_size.wf(),
        table.wf(),
    ensures
        (row_num < table.rows@.len() && column_index < table.columns@.len()) ==> (r matches Ok(p)
            && p.0 == anchor_x(*page_size, *table, column_index as int)
            && p.1 == anchor_y(table.position_y as int, *table, row_num as int)),
        (row_num >= table.rows@.len() || column_index >= table.columns@.len()) ==> r == Err::<
            (i64, i64),
            LayoutError,
        >(LayoutError::IndexOutOfRange),
{
    if row_num >= table.rows.len() {
        return Err(LayoutError::IndexOutOfRange);
    }
    if column_index >= table.columns.len() {
        return Err(LayoutError::IndexOutOfRange);
    }
    let border_padding: i64 = if table.borders {
        ((table.row_height as u64) / 4) as i64
    } else {
        0
    };
    let cell_padding: i64 = if table.borders {
        CELL_PADDING
    } else {
        0
    };
    let x = page_size.margin_width + column_offset_exec(page_size, table, column_index)
        + border_padding;
    proof {
        lemma_mul_upper_bound(
            row_num as int + 1,
            MAX_ROWS as int,
            table.row_height as int,
            MAX_DIM as int,
        );
        vstd::arithmetic::mul::lemma_mul_nonnegative(row_num as int + 1, table.row_height as int);
    }
    let y: i64 = table.position_y - ((row_num as i64) + 1) * table.row_height - cell_padding;
    Ok((x, y))
}

/// Law: when a table's column weights sum to the whole grid, the boundary
/// after the last column lands exactly on the right inner edge,
/// `margin_width + inner_width`.
pub proof fn lemma_column_partition_exact(g: PageSize, t: Table)
    requires
        g.wf(),
        t.wf(),
        weight_prefix(t.columns@, t.columns@.len() as int) == t.max_columns as int,
    ensures
        border_left_x(g, t, t.columns@.len() as int) == g.margin_width + g.inner_width(),
{
    lemma_div_by_multiple(g.inner_width(), t.max_columns as int);
    assert(g.inner_width() * (t.max_columns as int) == (g.inner_width() * t.max_columns as int));
}

/// Law: for a fixed cursor, anchor y positions of successive row-local rows
/// descend by exactly one row height.
pub proof fn lemma_monotonic_row_descent(pos_y: int, t: Table, row_local: int)
    requires
        0 < t.row_height,
    ensures
        anchor_y(pos_y, t, row_local + 1) == anchor_y(pos_y, t, row_local) - t.row_height,
        anchor_y(pos_y, t, row_local + 1) < anchor_y(pos_y, t, row_local),
{
    assert((row_local + 2) * (t.row_height as int) == (row_local + 1) * (t.row_height as int)
        + t.row_height) by (nonlinear_arith);
}

/// Law: with borders on, the vertical gap between a cell's border top edge
/// and its text anchor is the constant `row_height - row_height / 2 +
/// CELL_PADDING`, for every cell and every cursor — a regression guard
/// relating the border rectangle's half-row padding to the anchor's cell
/// padding.
pub proof fn lemma_border_anchor_offset(pos_y: int, t: Table, row_local: int)
    requires
        t.borders,
    ensures
        border_top_y(pos_y, t, row_local) - anchor_y(pos_y, t, row_local) == t.row_height
            - (t.row_height as int) / 2 + CELL_PADDING,
{
    assert((row_local + 1) * (t.row_height as int) == row_local * (t.row_height as int)
        + t.row_height) by (nonlinear_arith);
}

/// Law: cell geometry is a pure function of its arguments — any two results
/// that satisfy the anchor equations for the same page, table, cursor and
/// indices are the same point.
pub proof fn lemma_geometry_idempotent(
    g: PageSize,
    t: Table,
    pos_y: int,
    col: int,
    row_local: int,
    a1: (int, int),
    a2: (int, int),
)
    requires
        a1 == (anchor_x(g, t, col), anchor_y(pos_y, t, row_local)),
        a2 == (anchor_x(g, t, col), anchor_y(pos_y, t, row_local)),
    ensures
        a1 == a2,
{
}

} // verus!
