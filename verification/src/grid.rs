//! The logical table: proportional column weights against a fixed-width
//! grid, ordered rows of cell text, and the per-table layout settings.

use vstd::prelude::*;

use crate::units::{DEFAULT_BREAK_MARGIN, DEFAULT_ROW_HEIGHT, MAX_DIM, MAX_GRID_UNITS, MAX_ROWS};

verus! {

/// One table column: a positive weight in grid units, relative to the
/// table's `max_columns`.
pub struct Column {
    pub width: usize,
}

impl Column {
    /// A column one grid unit wide.
    pub fn default() -> (c: Column)
        ensures
            c.width == 1,
    {
        Column { width: 1 }
    }
}

/// Sum of the weights of the first `k` columns.
pub open spec fn weight_prefix(cols: Seq<Column>, k: int) -> int
    decreases k,
{
    if k <= 0 {
        0
    } else {
        weight_prefix(cols, k - 1) + cols[k - 1].width
    }
}

/// Weight prefix sums are nonnegative and grow with the prefix length.
pub proof fn lemma_weight_prefix_mono(cols: Seq<Column>, i: int, j: int)
    requires
        0 <= i <= j,
    ensures
        0 <= weight_prefix(cols, i) <= weight_prefix(cols, j),
    decreases j,
{
    if i < j {
        lemma_weight_prefix_mono(cols, i, j - 1);
    } else if i == j && i > 0 {
        lemma_weight_prefix_mono(cols, i - 1, i - 1);
    }
}

/// A table: ordered rows of cell text (the first row is the header),
/// ordered column weights, the grid unit count, the row height, whether
/// cell borders are drawn, and the vertical cursor that pagination owns.
pub struct Table {
    pub rows: Vec<Vec<String>>,
    pub columns: Vec<Column>,
    pub position_y: i64,
    pub max_columns: usize,
    pub borders: bool,
    pub row_height: i64,
}

impl Table {
    /// Well-formed table: at least one column, positive weights that sum to
    /// at most the grid unit count, every row as long as the column list,
    /// and every dimension inside the bounds that keep the geometry's
    /// arithmetic in `i64`.
    pub open spec fn wf(&self) -> bool {
        &&& 1 <= self.columns@.len()
        &&& (forall|i: int| 0 <= i < self.columns@.len() ==> 1 <= #[trigger] self.columns@[i].width)
        &&& 1 <= self.max_columns <= MAX_GRID_UNITS
        &&& weight_prefix(self.columns@, self.columns@.len() as int) <= self.max_columns
        &&& 0 < self.row_height <= MAX_DIM
        &&& self.rows@.len() <= MAX_ROWS
        &&& (forall|r: int| 0 <= r < self.rows@.len() ==> (#[trigger] self.rows@[r])@.len() == self.columns@.len())
        &&& -MAX_DIM <= self.position_y <= MAX_DIM
    }

    /// A table with the default column split 6/2/2/2 of a 12 unit grid, no
    /// rows yet, no borders, the default row height, and the given starting
    /// vertical cursor.
    pub fn default(position: i64) -> (t: Table)
        requires
            -MAX_DIM <= position <= MAX_DIM,
        ensures
            t.wf(),
            t.rows@.len() == 0,
            t.columns@.len() == 4,
            t.columns@[0].width == 6 && t.columns@[1].width == 2 && t.columns@[2].width == 2
                && t.columns@[3].width == 2,
            t.position_y == position,
            t.max_columns == 12,
            !t.borders,
            t.row_height == DEFAULT_ROW_HEIGHT,
    {
        let columns: Vec<Column> = vec![
            Column { width: 6 },
            Column { width: 2 },
            Column { width: 2 },
            Column { width: 2 },
        ];
        let t = Table {
            columns,
            rows: Vec::new(),
            position_y: position,
            max_columns: 12,
            borders: false,
            row_height: DEFAULT_ROW_HEIGHT,
        };
        proof {
            assert(weight_prefix(t.columns@, 4) == 12) by {
                assert(weight_prefix(t.columns@, 0) == 0);
                assert(weight_prefix(t.columns@, 1) == 6);
                assert(weight_prefix(t.columns@, 2) == 8);
                assert(weight_prefix(t.columns@, 3) == 10);
            }
        }
        t
    }

    /// Turn cell borders on or off.
    pub fn set_borders(&mut self, borders_on: bool)
        ensures
            *final(self) == (Table { borders: borders_on, ..*old(self) }),
    {
        self.borders = borders_on;
    }

    /// Append one row of cell text.
    pub fn add_row(&mut self, row: Vec<String>)
        ensures
            final(self).rows@ == old(self).rows@.push(row),
            final(self).columns == old(self).columns,
            final(self).position_y == old(self).position_y,
            final(self).max_columns == old(self).max_columns,
            final(self).borders == old(self).borders,
            final(self).row_height == old(self).row_height,
    {
        self.rows.push(row);
    }

    /// Replace the column weights.
    pub fn set_columns(&mut self, columns: Vec<Column>)
        ensures
            *final(self) == (Table { columns, ..*old(self) }),
    {
        self.columns = columns;
    }

    /// Set the grid unit count the column weights are measured against.
    pub fn set_columns_len(&mut self, columns: usize)
        ensures
            *final(self) == (Table { max_columns: columns, ..*old(self) }),
    {
        self.max_columns = columns;
    }

    /// Set the row height, in layout units.
    pub fn set_row_height(&mut self, row_height: i64)
        ensures
            *final(self) == (Table { row_height, ..*old(self) }),
    {
        self.row_height = row_height;
    }

    /// The page-break threshold is a fixed constant, deliberately not
    /// derived from the configured row height. This reports whether the two
    /// agree, so a caller can notice when breaks will not align with its
    /// rows.
    pub fn row_height_matches_break_margin(&self) -> (b: bool)
        ensures
            b == (self.row_height == DEFAULT_BREAK_MARGIN),
    {
        self.row_height == DEFAULT_BREAK_MARGIN
    }

    /// Explicit validation of the table invariant, so a caller can fail
    /// fast before asking for geometry instead of hitting a contract it
    /// cannot meet.
    pub fn is_well_formed(&self) -> (b: bool)
        ensures
            b == self.wf(),
    {
        if self.columns.len() < 1 {
            return false;
        }
        if self.max_columns < 1 || self.max_columns > MAX_GRID_UNITS {
            return false;
        }
        if self.row_height <= 0 || self.row_height > MAX_DIM {
            return false;
        }
        if self.rows.len() > MAX_ROWS {
            return false;
        }
        if self.position_y < -MAX_DIM || self.position_y > MAX_DIM {
            return false;
        }
        let ncols = self.columns.len();
        let mut sum: usize = 0;
        let mut i: usize = 0;
        while i < ncols
            invariant
                i <= ncols,
                ncols == self.columns@.len(),
                self.max_columns <= MAX_GRID_UNITS,
                sum == weight_prefix(self.columns@, i as int),
                sum <= self.max_columns,
                forall|k: int| 0 <= k < i ==> 1 <= #[trigger] self.columns@[k].width,
            decreases ncols - i,
        {
            let w = self.columns[i].width;
            if w < 1 {
                return false;
            }
            if w > self.max_columns - sum {
                proof {
                    lemma_weight_prefix_mono(self.columns@, i + 1, ncols as int);
                }
                return false;
            }
            sum = sum + w;
            i = i + 1;
        }
        let nrows = self.rows.len();
        let mut r: usize = 0;
        while r < nrows
            invariant
                r <= nrows,
                nrows == self.rows@.len(),
                ncols == self.columns@.len(),
                forall|k: int| 0 <= k < r ==> (#[trigger] self.rows@[k])@.len() == self.columns@.len(),
            decreases nrows - r,
        {
            if self.rows[r].len() != ncols {
                return false;
            }
            r = r + 1;
        }
        proof {
            lemma_weight_prefix_mono(self.columns@, ncols as int, ncols as int);
        }
        true
    }
}

} // verus!
