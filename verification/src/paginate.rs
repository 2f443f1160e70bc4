//! The pagination engine: walks a table's rows, breaks pages when the
//! vertical cursor runs out of room, re-emits the header row at the top of
//! each new page, and produces the full, ordered plan of rendering
//! operations together with the final cursor.
//!
//! The engine is pure geometry and sequencing: it never draws. An
//! unverified layer interprets the plan against the actual document
//! library, looking cell text up by the row and column indices carried in
//! each `Text` operation.

use vstd::prelude::*;

use crate::geometry::PageSize;
use crate::grid::Table;
use crate::locator::{
    anchor_x, anchor_y, border_left_x, border_top_y, calculate_border_points,
    calculate_cell_coordinates, Point,
};
use crate::units::DEFAULT_BREAK_MARGIN;

verus! {

/// One step of the rendering plan, in document order.
#[derive(Clone, Copy, Debug, PartialEq, Eq, Structural)]
pub enum RenderOp {
    /// Start a new page (the `number`th break) and draw on it from here on.
    NewPage { number: usize },
    /// Stroke a closed, unfilled rectangle through the four corners.
    Border { top_left: Point, top_right: Point, bottom_right: Point, bottom_left: Point },
    /// Draw the text of cell (`row`, `col`) of the table at (`x`, `y`), in
    /// the emphasis (header) style when `emphasis` is set.
    Text { row: usize, col: usize, x: i64, y: i64, emphasis: bool },
}

/// The engine's loop state: the table's vertical cursor, the running y of
/// the last drawn cell, pages broken so far, and the row index recorded at
/// the last page break (the row-local origin).
pub struct LayoutState {
    pub pos_y: int,
    pub cur_y: int,
    pub pages: int,
    pub cur_row: int,
}

/// The page is exhausted: the cursor has fallen to or below the bottom
/// margin plus the fixed minimum-row-space threshold.
pub open spec fn break_needed(g: PageSize, st: LayoutState) -> bool {
    st.cur_y <= g.margin_height + DEFAULT_BREAK_MARGIN
}

/// State after the page-break decision for row `r`: on a break the cursor
/// resets to the top margin, the page count grows and `r` becomes the new
/// row-local origin.
pub open spec fn after_break(g: PageSize, r: int, st: LayoutState) -> LayoutState {
    if break_needed(g, st) {
        LayoutState {
            pos_y: g.height - g.margin_height,
            cur_y: st.cur_y,
            pages: st.pages + 1,
            cur_row: r,
        }
    } else {
        st
    }
}

/// 1 once any page break has happened, else 0: the header row consumes one
/// row slot only after the first break.
pub open spec fn min_one(pages: int) -> int {
    if pages >= 1 {
        1
    } else {
        0
    }
}

/// Row-local index at which row `r`'s cells are drawn.
pub open spec fn data_row_local(r: int, st: LayoutState) -> int {
    r + min_one(st.pages) - st.cur_row
}

/// The border rectangle operation of cell (`col`, `row_local`).
pub open spec fn border_op(g: PageSize, t: Table, pos_y: int, col: int, row_local: int) -> RenderOp {
    RenderOp::Border {
        top_left: (Point {
            x: border_left_x(g, t, col) as i64,
            y: border_top_y(pos_y, t, row_local) as i64,
        }),
        top_right: (Point {
            x: border_left_x(g, t, col + 1) as i64,
            y: border_top_y(pos_y, t, row_local) as i64,
        }),
        bottom_right: (Point {
            x: border_left_x(g, t, col + 1) as i64,
            y: (border_top_y(pos_y, t, row_local) - t.row_height) as i64,
        }),
        bottom_left: (Point {
            x: border_left_x(g, t, col) as i64,
            y: (border_top_y(pos_y, t, row_local) - t.row_height) as i64,
        }),
    }
}

/// The text operation of cell (`col`, `row_local`), drawing the text of
/// table cell (`text_row`, `col`).
pub open spec fn text_op(
    g: PageSize,
    t: Table,
    pos_y: int,
    text_row: int,
    col: int,
    row_local: int,
    emphasis: bool,
) -> RenderOp {
    RenderOp::Text {
        row: text_row as usize,
        col: col as usize,
        x: anchor_x(g, t, col) as i64,
        y: anchor_y(pos_y, t, row_local) as i64,
        emphasis,
    }
}

/// The operations for one cell: its border rectangle (when borders are on)
/// followed by its text.
pub open spec fn cell_ops(
    g: PageSize,
    t: Table,
    pos_y: int,
    text_row: int,
    col: int,
    row_local: int,
    emphasis: bool,
) -> Seq<RenderOp> {
    if t.borders {
        seq![
            border_op(g, t, pos_y, col, row_local),
            text_op(g, t, pos_y, text_row, col, row_local, emphasis),
        ]
    } else {
        seq![text_op(g, t, pos_y, text_row, col, row_local, emphasis)]
    }
}

/// The operations for the first `c` cells of one drawn row.
pub open spec fn row_ops(
    g: PageSize,
    t: Table,
    pos_y: int,
    text_row: int,
    row_local: int,
    emphasis: bool,
    c: int,
) -> Seq<RenderOp>
    decreases c,
{
    if c <= 0 {
        Seq::empty()
    } else {
        row_ops(g, t, pos_y, text_row, row_local, emphasis, c - 1) + cell_ops(
            g,
            t,
            pos_y,
            text_row,
            c - 1,
            row_local,
            emphasis,
        )
    }
}

/// `row_ops` reads only the column weights, grid unit count, border flag
/// and row height of the table, so tables differing elsewhere (for example
/// in their cursor field) yield the same operations.
pub proof fn lemma_row_ops_congruent(
    g: PageSize,
    a: Table,
    b: Table,
    pos_y: int,
    text_row: int,
    row_local: int,
    emphasis: bool,
    c: int,
)
    requires
        a.columns@ == b.columns@,
        a.max_columns == b.max_columns,
        a.borders == b.borders,
        a.row_height == b.row_height,
    ensures
        row_ops(g, a, pos_y, text_row, row_local, emphasis, c) == row_ops(
            g,
            b,
            pos_y,
            text_row,
            row_local,
            emphasis,
            c,
        ),
    decreases c,
{
    if c > 0 {
        lemma_row_ops_congruent(g, a, b, pos_y, text_row, row_local, emphasis, c - 1);
    }
}

/// Whether row `r` is drawn as a header: the very first row, or the row
/// right after a page break.
pub open spec fn header_here(g: PageSize, r: int, st: LayoutState) -> bool {
    r == 0 || break_needed(g, st)
}

/// All operations that processing row `r` emits from state `st`: a page
/// break if the cursor is exhausted, the header row if this is the first
/// row or a break just happened, and the row's own cells unless this is the
/// header row itself.
pub open spec fn step_ops(g: PageSize, t: Table, r: int, st: LayoutState) -> Seq<RenderOp> {
    let st1 = after_break(g, r, st);
    let ncols = t.columns@.len() as int;
    (if break_needed(g, st) {
        seq![RenderOp::NewPage { number: (st.pages + 1) as usize }]
    } else {
        Seq::empty()
    }) + (if header_here(g, r, st) {
        row_ops(g, t, st1.pos_y, 0, r - st1.cur_row, true, ncols)
    } else {
        Seq::empty()
    }) + (if r == 0 {
        Seq::empty()
    } else {
        row_ops(g, t, st1.pos_y, r, data_row_local(r, st1), false, ncols)
    })
}

/// The state after processing row `r` from state `st`.
pub open spec fn step_state(g: PageSize, t: Table, r: int, st: LayoutState) -> LayoutState {
    let st1 = after_break(g, r, st);
    if r == 0 {
        LayoutState { cur_y: anchor_y(st1.pos_y, t, r - st1.cur_row), ..st1 }
    } else {
        LayoutState { cur_y: anchor_y(st1.pos_y, t, data_row_local(r, st1)), ..st1 }
    }
}

/// The engine's starting state: the table's cursor, the caller's running y,
/// no pages broken, row-local origin zero.
pub open spec fn init_state(t: Table, y: int) -> LayoutState {
    LayoutState { pos_y: t.position_y as int, cur_y: y, pages: 0, cur_row: 0 }
}

/// The state before processing row `r`.
pub open spec fn run_state(g: PageSize, t: Table, r: int, y: int) -> LayoutState
    decreases r,
{
    if r <= 0 {
        init_state(t, y)
    } else {
        step_state(g, t, r - 1, run_state(g, t, r - 1, y))
    }
}

/// All operations emitted while processing rows `0 .. r`.
pub open spec fn run_ops(g: PageSize, t: Table, r: int, y: int) -> Seq<RenderOp>
    decreases r,
{
    if r <= 0 {
        Seq::empty()
    } else {
        run_ops(g, t, r - 1, y) + step_ops(g, t, r - 1, run_state(g, t, r - 1, y))
    }
}

/// The complete rendering plan for the table.
pub open spec fn layout_plan(g: PageSize, t: Table, y: int) -> Seq<RenderOp> {
    run_ops(g, t, t.rows@.len() as int, y)
}

/// The engine's state after the last row.
pub open spec fn final_state(g: PageSize, t: Table, y: int) -> LayoutState {
    run_state(g, t, t.rows@.len() as int, y)
}

/// The operations of a drawn row are borders and text only: page breaks
/// never come from inside a row.
pub proof fn lemma_row_ops_no_page(
    g: PageSize,
    t: Table,
    pos_y: int,
    text_row: int,
    row_local: int,
    emphasis: bool,
    c: int,
)
    ensures
        forall|i: int|
            0 <= i < row_ops(g, t, pos_y, text_row, row_local, emphasis, c).len() ==> !((
            #[trigger] row_ops(g, t, pos_y, text_row, row_local, emphasis, c)[i]) is NewPage),
    decreases c,
{
    if c > 0 {
        lemma_row_ops_no_page(g, t, pos_y, text_row, row_local, emphasis, c - 1);
    }
}

/// Law: a page break triggers exactly at the threshold. When the running y
/// of a non-header row has fallen to `margin_height + DEFAULT_BREAK_MARGIN`,
/// processing that row starts a new page, re-emits the header, and resets
/// the cursor to the top margin; while the cursor sits above the threshold,
/// no page break is emitted at all.
pub proof fn lemma_page_break_at_threshold(g: PageSize, t: Table, r: int, st: LayoutState)
    requires
        r != 0,
    ensures
        break_needed(g, st) <==> st.cur_y <= g.margin_height + DEFAULT_BREAK_MARGIN,
        break_needed(g, st) ==> step_ops(g, t, r, st).len() > 0 && step_ops(g, t, r, st)[0] == (
        RenderOp::NewPage { number: (st.pages + 1) as usize }) && header_here(g, r, st)
            && step_state(g, t, r, st).pos_y == g.height - g.margin_height,
        !break_needed(g, st) ==> (forall|i: int|
            0 <= i < step_ops(g, t, r, st).len() ==> !((#[trigger] step_ops(g, t, r, st)[i])
                is NewPage)),
{
    let st1 = after_break(g, r, st);
    let ncols = t.columns@.len() as int;
    lemma_row_ops_no_page(g, t, st1.pos_y, 0, r - st1.cur_row, true, ncols);
    lemma_row_ops_no_page(g, t, st1.pos_y, r, data_row_local(r, st1), false, ncols);
}

/// While the running y stays above the threshold, the engine keeps its
/// first-page state: no pages broken, origin zero, the cursor one row
/// height lower per processed row.
pub proof fn lemma_uniform_descent(g: PageSize, t: Table, y: int, m: int)
    requires
        !t.borders,
        y == t.position_y,
        1 <= m,
        y > g.margin_height + DEFAULT_BREAK_MARGIN,
        forall|r: int|
            1 <= r < m ==> y - #[trigger] (r * t.row_height) > g.margin_height
                + DEFAULT_BREAK_MARGIN,
    ensures
        run_state(g, t, m, y) == (LayoutState {
            pos_y: t.position_y as int,
            cur_y: t.position_y - m * t.row_height,
            pages: 0,
            cur_row: 0,
        }),
    decreases m,
{
    if m > 1 {
        lemma_uniform_descent(g, t, y, m - 1);
        assert(y - (m - 1) * t.row_height > g.margin_height + DEFAULT_BREAK_MARGIN);
    } else {
        assert(run_state(g, t, 0, y) == init_state(t, y));
    }
}

/// While the running y stays above the threshold, processing further rows
/// only lowers the cursor; no page break happens and the page state keeps
/// its cursor origin `p`, page count `pg` and row-local origin `c`. The
/// cursor follows the engine's steady descent: one row height per row past
/// the origin.
pub proof fn lemma_descent_no_break(
    g: PageSize,
    t: Table,
    y: int,
    a: int,
    m: int,
    p: int,
    pg: int,
    c: int,
)
    requires
        !t.borders,
        1 <= a <= m,
        run_state(g, t, a, y) == (LayoutState {
            pos_y: p,
            cur_y: p - (a + min_one(pg) - c) * t.row_height,
            pages: pg,
            cur_row: c,
        }),
        forall|r: int|
            a <= r < m ==> p - #[trigger] ((r + min_one(pg) - c) * t.row_height)
                > g.margin_height + DEFAULT_BREAK_MARGIN,
    ensures
        run_state(g, t, m, y) == (LayoutState {
            pos_y: p,
            cur_y: p - (m + min_one(pg) - c) * t.row_height,
            pages: pg,
            cur_row: c,
        }),
    decreases m - a,
{
    if a < m {
        lemma_descent_no_break(g, t, y, a, m - 1, p, pg, c);
        assert(p - (m - 1 + min_one(pg) - c) * t.row_height > g.margin_height
            + DEFAULT_BREAK_MARGIN);
    }
}

/// Law: a table of uniform rows sized to overflow its page once breaks
/// exactly once. With the cursor starting at `y`, rows `1 .. k` staying
/// above the threshold, row `k` hitting it, and the remaining rows fitting
/// on the fresh page, the whole run opens exactly one new page — at row
/// `k`, whose step starts with the single `NewPage` and redraws the header
/// at the top of the new page — and every later row keeps row-local
/// indices against origin `k`.
pub proof fn lemma_single_page_break(g: PageSize, t: Table, y: int, k: int)
    requires
        !t.borders,
        y == t.position_y,
        1 <= k < t.rows@.len(),
        y > g.margin_height + DEFAULT_BREAK_MARGIN,
        forall|r: int|
            1 <= r < k ==> y - #[trigger] (r * t.row_height) > g.margin_height
                + DEFAULT_BREAK_MARGIN,
        y - k * t.row_height <= g.margin_height + DEFAULT_BREAK_MARGIN,
        forall|r: int|
            k < r < t.rows@.len() ==> g.height - g.margin_height - #[trigger] ((r + 1 - k)
                * t.row_height) > g.margin_height + DEFAULT_BREAK_MARGIN,
    ensures
        final_state(g, t, y).pages == 1,
        final_state(g, t, y).pos_y == g.height - g.margin_height,
        final_state(g, t, y).cur_row == k,
        break_needed(g, run_state(g, t, k, y)),
        step_ops(g, t, k, run_state(g, t, k, y)).len() > 0,
        step_ops(g, t, k, run_state(g, t, k, y))[0] == (RenderOp::NewPage { number: 1 }),
        header_here(g, k, run_state(g, t, k, y)),
        forall|r: int|
            k < r < t.rows@.len() ==> !break_needed(g, run_state(g, t, r, y)),
{
    let n = t.rows@.len() as int;
    let h = t.row_height as int;
    let top = g.height - g.margin_height;
    lemma_uniform_descent(g, t, y, k);
    let stk = run_state(g, t, k, y);
    assert(break_needed(g, stk));
    lemma_page_break_at_threshold(g, t, k, stk);
    let stk1 = run_state(g, t, k + 1, y);
    assert(stk1 == step_state(g, t, k, stk));
    assert(stk1 == (LayoutState { pos_y: top, cur_y: top - 2 * h, pages: 1, cur_row: k }));
    assert(forall|r: int|
        k + 1 <= r < n ==> top - #[trigger] ((r + min_one(1) - k) * t.row_height)
            > g.margin_height + DEFAULT_BREAK_MARGIN);
    lemma_descent_no_break(g, t, y, k + 1, n, top, 1, k);
    assert forall|r: int| k < r < n implies !break_needed(g, run_state(g, t, r, y)) by {
        lemma_descent_no_break(g, t, y, k + 1, r, top, 1, k);
    }
}

/// Emits the border and text operations/// Emits the border and text operations of one drawn row (cell texts taken
/// from table row `text_row`, geometry at row-local row `row_local`) and
/// returns the y at which the row's text anchors sit.
fn emit_row(
    ops: &mut Vec<RenderOp>,
    page_size: &PageSize,
    table: &Table,
    text_row: usize,
    row_local: usize,
    emphasis: bool,
) -> (last_y: i64)
    requires
        page_size.wf(),
        table.wf(),
        row_local < table.rows@.len(),
    ensures
        final(ops)@ == old(ops)@ + row_ops(
            *page_size,
            *table,
            table.position_y as int,
            text_row as int,
            row_local as int,
            emphasis,
            table.columns@.len() as int,
        ),
        last_y == anchor_y(table.position_y as int, *table, row_local as int),
{
    let ncols = table.columns.len();
    let mut last_y: i64 = 0;
    let mut c: usize = 0;
    while c < ncols
        invariant
            page_size.wf(),
            table.wf(),
            row_local < table.rows@.len(),
            c <= ncols,
            ncols == table.columns@.len(),
            ops@ == old(ops)@ + row_ops(
                *page_size,
                *table,
                table.position_y as int,
                text_row as int,
                row_local as int,
                emphasis,
                c as int,
            ),
            c >= 1 ==> last_y == anchor_y(table.position_y as int, *table, row_local as int),
        decreases ncols - c,
    {
        if table.borders {
            let pts = calculate_border_points(page_size, table, c, row_local).unwrap();
            ops.push(
                RenderOp::Border {
                    top_left: pts[0],
                    top_right: pts[1],
                    bottom_right: pts[2],
                    bottom_left: pts[3],
                },
            );
        }
        let xy = calculate_cell_coordinates(page_size, table, c, row_local).unwrap();
        ops.push(RenderOp::Text { row: text_row, col: c, x: xy.0, y: xy.1, emphasis });
        last_y = xy.1;
        proof {
            assert(ops@ =~= old(ops)@ + row_ops(
                *page_size,
                *table,
                table.position_y as int,
                text_row as int,
                row_local as int,
                emphasis,
                c as int + 1,
            ));
        }
        c = c + 1;
    }
    last_y
}

/// Lays the whole table out: walks every row (row 0 is the header), breaks
/// a page whenever the running y falls to the threshold, re-emits the
/// header at the top of each new page, and returns the y of the last drawn
/// row together with the ordered rendering plan. The table's cursor field
/// is left where pagination moved it; everything else is untouched.
///
/// The starting y must sit above the break threshold: a table whose very
/// first row already triggers a break has no consistent row-local origin.
pub fn add_table(table: &mut Table, page_size: &PageSize, y: i64) -> (r: (i64, Vec<RenderOp>))
    requires
        old(table).wf(),
        page_size.wf(),
        old(table).rows@.len() >= 1,
        y > page_size.margin_height + DEFAULT_BREAK_MARGIN,
    ensures
        r.1@ == layout_plan(*page_size, *old(table), y as int),
        r.0 == final_state(*page_size, *old(table), y as int).cur_y,
        final(table).position_y == final_state(*page_size, *old(table), y as int).pos_y,
        final(table).rows@ == old(table).rows@,
        final(table).columns@ == old(table).columns@,
        final(table).max_columns == old(table).max_columns,
        final(table).borders == old(table).borders,
        final(table).row_height == old(table).row_height,
        final(table).wf(),
{
    let ghost t0 = *old(table);
    let ghost g = *page_size;
    let nrows = table.rows.len();
    let ncols = table.columns.len();
    let mut ops: Vec<RenderOp> = Vec::new();
    let mut current_y: i64 = y;
    let mut page_num: usize = 0;
    let mut current_row: usize = 0;
    let mut r: usize = 0;
    while r < nrows
        invariant
            r <= nrows,
            nrows == t0.rows@.len(),
            nrows >= 1,
            ncols == t0.columns@.len(),
            page_size.wf(),
            g == *page_size,
            table.wf(),
            table.rows@ == t0.rows@,
            table.columns@ == t0.columns@,
            table.max_columns == t0.max_columns,
            table.borders == t0.borders,
            table.row_height == t0.row_height,
            table.position_y as int == run_state(g, t0, r as int, y as int).pos_y,
            current_y as int == run_state(g, t0, r as int, y as int).cur_y,
            page_num as int == run_state(g, t0, r as int, y as int).pages,
            current_row as int == run_state(g, t0, r as int, y as int).cur_row,
            ops@ == run_ops(g, t0, r as int, y as int),
            page_num <= r,
            current_row <= r,
            page_num == 0 ==> current_row == 0,
            page_num >= 1 ==> 1 <= current_row,
            r == 0 ==> current_y == y,
            y > page_size.margin_height + DEFAULT_BREAK_MARGIN,
        decreases nrows - r,
    {
        let ghost st = run_state(g, t0, r as int, y as int);
        let ghost st1 = after_break(g, r as int, st);
        let brk = current_y <= page_size.margin_height + DEFAULT_BREAK_MARGIN;
        proof {
            assert(brk == break_needed(g, st));
            if r == 0 {
                assert(!brk);
            }
        }
        if brk {
            page_num = page_num + 1;
            ops.push(RenderOp::NewPage { number: page_num });
            current_row = r;
            table.position_y = page_size.height - page_size.margin_height;
        }
        proof {
            assert(table.position_y as int == st1.pos_y);
            assert(current_row as int == st1.cur_row);
            assert(page_num as int == st1.pages);
        }
        let ghost ops_a = ops@;
        if r == 0 || brk {
            let row_local = r - current_row;
            let hy = emit_row(&mut ops, page_size, table, 0, row_local, true);
            current_y = hy;
            proof {
                lemma_row_ops_congruent(
                    g,
                    *table,
                    t0,
                    st1.pos_y,
                    0,
                    row_local as int,
                    true,
                    ncols as int,
                );
                assert(ops@ == ops_a + row_ops(g, t0, st1.pos_y, 0, r as int - st1.cur_row, true, ncols as int));
            }
        }
        let ghost ops_b = ops@;
        if r != 0 {
            let inc: usize = if page_num >= 1 {
                1
            } else {
                0
            };
            let row_local = r + inc - current_row;
            proof {
                assert(row_local as int == data_row_local(r as int, st1));
                assert(row_local < nrows);
            }
            let dy = emit_row(&mut ops, page_size, table, r, row_local, false);
            current_y = dy;
            proof {
                lemma_row_ops_congruent(
                    g,
                    *table,
                    t0,
                    st1.pos_y,
                    r as int,
                    row_local as int,
                    false,
                    ncols as int,
                );
                assert(ops@ == ops_b + row_ops(
                    g,
                    t0,
                    st1.pos_y,
                    r as int,
                    data_row_local(r as int, st1),
                    false,
                    ncols as int,
                ));
            }
        }
        proof {
            assert(run_state(g, t0, r as int + 1, y as int) == step_state(g, t0, r as int, st));
            assert(current_y as int == step_state(g, t0, r as int, st).cur_y);
            assert(ops@ =~= run_ops(g, t0, r as int + 1, y as int));
        }
        r = r + 1;
    }
    (current_y, ops)
}

} // verus!
