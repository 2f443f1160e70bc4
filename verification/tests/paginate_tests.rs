use table_layout::geometry::PageSize;
use table_layout::grid::Table;
use table_layout::paginate::{add_table, RenderOp};

fn row4(a: &str, b: &str, c: &str, d: &str) -> Vec<String> {
    vec![a.to_string(), b.to_string(), c.to_string(), d.to_string()]
}

/// A short page: height 500, margins 80, so the cursor resets to 420 and a
/// break triggers once the running y falls to 80 + 60 = 140.
fn short_page() -> PageSize {
    PageSize { width: 800, height: 500, margin_width: 80, margin_height: 80 }
}

fn table_with_rows(n: usize, borders: bool) -> Table {
    let mut t = Table::default(420);
    t.set_borders(borders);
    t.add_row(row4("h1", "h2", "h3", "h4"));
    for i in 1..n {
        let label = format!("r{}", i);
        t.add_row(row4(&label, "x", "y", "z"));
    }
    t
}

fn new_pages(ops: &[RenderOp]) -> Vec<usize> {
    ops.iter()
        .filter_map(|op| match op {
            RenderOp::NewPage { number } => Some(*number),
            _ => None,
        })
        .collect()
}

fn texts(ops: &[RenderOp]) -> Vec<(usize, usize, i64, i64, bool)> {
    ops.iter()
        .filter_map(|op| match op {
            RenderOp::Text { row, col, x, y, emphasis } => Some((*row, *col, *x, *y, *emphasis)),
            _ => None,
        })
        .collect()
}

#[test]
fn single_page_plan() {
    let page = short_page();
    let mut t = table_with_rows(2, false);
    let (final_y, ops) = add_table(&mut t, &page, 420);
    assert_eq!(new_pages(&ops), Vec::<usize>::new());
    let texts = texts(&ops);
    assert_eq!(texts.len(), 8);
    // header row drawn in emphasis at 420 - 60
    assert_eq!(texts[0], (0, 0, 80, 360, true));
    assert!(texts[..4].iter().all(|t| t.0 == 0 && t.3 == 360 && t.4));
    // data row 1 drawn regular one slot further down
    assert!(texts[4..].iter().all(|t| t.0 == 1 && t.3 == 300 && !t.4));
    assert_eq!(final_y, 300);
    assert_eq!(t.position_y, 420);
}

#[test]
fn page_break_at_threshold() {
    let page = short_page();
    // header + 5 data rows: after the 5th row the cursor sits at exactly
    // 420 - 5*60 = 120 <= 140, so row 5 opens page two
    let mut t = table_with_rows(6, false);
    let (final_y, ops) = add_table(&mut t, &page, 420);
    assert_eq!(new_pages(&ops), vec![1]);
    let break_pos = ops
        .iter()
        .position(|op| matches!(op, RenderOp::NewPage { .. }))
        .unwrap();
    // rows 0..=4 fit on page one: 5 rows of 4 cells each
    assert_eq!(break_pos, 20);
    // the header is re-emitted right after the break, then row 5's cells
    let after: Vec<_> = texts(&ops[break_pos + 1..]);
    assert_eq!(after.len(), 8);
    assert!(after[..4].iter().all(|t| t.0 == 0 && t.3 == 360 && t.4));
    assert!(after[4..].iter().all(|t| t.0 == 5 && t.3 == 300 && !t.4));
    assert_eq!(final_y, 300);
    // the cursor was reset to the top margin of the new page
    assert_eq!(t.position_y, 420);
}

#[test]
fn no_break_one_row_short() {
    let page = short_page();
    // header + 4 data rows: the cursor ends at 420 - 5*60 = 120, but row 4
    // was checked while it still sat at 180 > 140, so no break occurs
    let mut t = table_with_rows(5, false);
    let (final_y, ops) = add_table(&mut t, &page, 420);
    assert_eq!(new_pages(&ops), Vec::<usize>::new());
    assert_eq!(texts(&ops).len(), 20);
    assert_eq!(final_y, 120);
}

#[test]
fn borders_emit_rectangles_before_text() {
    let page = short_page();
    let mut t = table_with_rows(2, true);
    let (_, ops) = add_table(&mut t, &page, 420);
    // 2 rows x 4 cells, one border + one text per cell
    assert_eq!(ops.len(), 16);
    let mut saw_border = false;
    for pair in ops.chunks(2) {
        match (&pair[0], &pair[1]) {
            (RenderOp::Border { top_left, .. }, RenderOp::Text { y, .. }) => {
                saw_border = true;
                // constant gap: row_height - row_height/2 + cell padding
                assert_eq!(top_left.y - y, 38);
            }
            other => panic!("unexpected op pair {:?}", other),
        }
    }
    assert!(saw_border);
}

#[test]
fn geometry_uses_row_local_indices_after_break() {
    let page = short_page();
    let mut t = table_with_rows(8, false);
    let (_, ops) = add_table(&mut t, &page, 420);
    // rows 5, 6, 7 land on page two at row-local slots 1, 2, 3
    let texts = texts(&ops);
    let y_of = |row: usize| -> i64 {
        texts.iter().find(|t| t.0 == row && t.1 == 0).unwrap().3
    };
    assert_eq!(y_of(5), 420 - 2 * 60);
    assert_eq!(y_of(6), 420 - 3 * 60);
    assert_eq!(y_of(7), 420 - 4 * 60);
}

#[test]
fn plan_is_deterministic() {
    let page = short_page();
    let mut t1 = table_with_rows(6, true);
    let mut t2 = table_with_rows(6, true);
    let (y1, ops1) = add_table(&mut t1, &page, 420);
    let (y2, ops2) = add_table(&mut t2, &page, 420);
    assert_eq!(y1, y2);
    assert_eq!(ops1, ops2);
}
