//! Layout units and the bounds that keep every coordinate computation
//! inside `i64`.
//!
//! One layout unit is one eighth of a millimetre. The choice makes every
//! constant of the layout rules an exact integer: the default row height of
//! 7.5 mm is 60 units, its half is 30, its quarter is 15, and the 1 mm cell
//! padding is 8.

use vstd::prelude::*;

verus! {

/// Layout units per millimetre.
pub const UNITS_PER_MM: i64 = 8;

/// Largest page dimension, margin, row height or vertical cursor the crate
/// accepts, in units (about two kilometres). The bound keeps every product
/// and sum of the geometry well inside `i64`.
pub const MAX_DIM: i64 = 0x100_0000;

/// Largest grid unit count (`max_columns`) a table may use.
pub const MAX_GRID_UNITS: usize = 0x1_0000;

/// Largest number of rows a table may hold.
pub const MAX_ROWS: usize = 0x1_0000;

/// Horizontal padding between a cell's border and its text anchor when
/// borders are enabled: 1 mm.
pub const CELL_PADDING: i64 = 8;

/// Default row height: 7.5 mm.
pub const DEFAULT_ROW_HEIGHT: i64 = 60;

/// Default page margin on each side: 10 mm.
pub const DEFAULT_MARGIN: i64 = 80;

/// Minimum space that must remain above the bottom margin before a row is
/// laid out; when the cursor falls to or below `margin_height +
/// DEFAULT_BREAK_MARGIN` a page break is triggered. Numerically equal to the
/// default row height (7.5 mm) but deliberately independent of a table's
/// configured `row_height`.
pub const DEFAULT_BREAK_MARGIN: i64 = 60;

} // verus!
