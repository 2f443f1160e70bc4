use table_layout::errors::LayoutError;
use table_layout::geometry::PageSize;
use table_layout::grid::{Column, Table};
use table_layout::locator::{calculate_border_points, calculate_cell_coordinates};

fn row4(a: &str, b: &str, c: &str, d: &str) -> Vec<String> {
    vec![a.to_string(), b.to_string(), c.to_string(), d.to_string()]
}

fn sample_table(borders: bool) -> Table {
    let mut t = Table::default(1000);
    t.set_borders(borders);
    t.add_row(row4("h1", "h2", "h3", "h4"));
    t.add_row(row4("a", "b", "c", "d"));
    t.add_row(row4("e", "f", "g", "h"));
    t
}

#[test]
fn anchor_without_borders() {
    let a4 = PageSize::A4();
    let t = sample_table(false);
    // inner width 1520; column 1 starts after weight 6 of 12: offset 760
    let (x, y) = calculate_cell_coordinates(&a4, &t, 1, 0).unwrap();
    assert_eq!(x, 80 + 760);
    assert_eq!(y, 1000 - 60);
    let (x0, y2) = calculate_cell_coordinates(&a4, &t, 0, 2).unwrap();
    assert_eq!(x0, 80);
    assert_eq!(y2, 1000 - 3 * 60);
}

#[test]
fn anchor_with_borders_adds_paddings() {
    let a4 = PageSize::A4();
    let t = sample_table(true);
    // quarter row height 15 pushes x right, cell padding 8 pushes y down
    let (x, y) = calculate_cell_coordinates(&a4, &t, 1, 0).unwrap();
    assert_eq!(x, 80 + 760 + 15);
    assert_eq!(y, 1000 - 60 - 8);
}

#[test]
fn border_rectangle_corners() {
    let a4 = PageSize::A4();
    let t = sample_table(true);
    let pts = calculate_border_points(&a4, &t, 0, 0).unwrap();
    assert_eq!(pts.len(), 4);
    // half row height 30 above the slot; column 0 spans offsets 0..760
    assert_eq!((pts[0].x, pts[0].y), (80, 970));
    assert_eq!((pts[1].x, pts[1].y), (840, 970));
    assert_eq!((pts[2].x, pts[2].y), (840, 910));
    assert_eq!((pts[3].x, pts[3].y), (80, 910));
}

#[test]
fn column_partition_covers_grid_exactly() {
    let a4 = PageSize::A4();
    let t = sample_table(true);
    // weights 6+2+2+2 = 12 = max_columns: last right edge == margin + inner
    let pts = calculate_border_points(&a4, &t, 3, 0).unwrap();
    assert_eq!(pts[1].x, 80 + 1520);
}

#[test]
fn row_descent_is_one_row_height() {
    let a4 = PageSize::A4();
    let t = sample_table(false);
    let (_, y0) = calculate_cell_coordinates(&a4, &t, 0, 0).unwrap();
    let (_, y1) = calculate_cell_coordinates(&a4, &t, 0, 1).unwrap();
    let (_, y2) = calculate_cell_coordinates(&a4, &t, 0, 2).unwrap();
    assert_eq!(y0 - y1, 60);
    assert_eq!(y1 - y2, 60);
}

#[test]
fn border_anchor_offset_is_constant() {
    let a4 = PageSize::A4();
    let t = sample_table(true);
    // gap = row_height - row_height / 2 + cell padding = 60 - 30 + 8
    for row in 0..3 {
        for col in 0..4 {
            let pts = calculate_border_points(&a4, &t, col, row).unwrap();
            let (_, y) = calculate_cell_coordinates(&a4, &t, col, row).unwrap();
            assert_eq!(pts[0].y - y, 38);
        }
    }
}

#[test]
fn geometry_is_idempotent() {
    let a4 = PageSize::A4();
    let t = sample_table(true);
    let first = calculate_cell_coordinates(&a4, &t, 2, 1).unwrap();
    let second = calculate_cell_coordinates(&a4, &t, 2, 1).unwrap();
    assert_eq!(first, second);
    let b1 = calculate_border_points(&a4, &t, 2, 1).unwrap();
    let b2 = calculate_border_points(&a4, &t, 2, 1).unwrap();
    assert_eq!(b1, b2);
}

#[test]
fn locator_rejects_out_of_range_indices() {
    let a4 = PageSize::A4();
    let t = sample_table(false);
    assert_eq!(
        calculate_cell_coordinates(&a4, &t, 4, 0),
        Err(LayoutError::IndexOutOfRange)
    );
    assert_eq!(
        calculate_cell_coordinates(&a4, &t, 0, 3),
        Err(LayoutError::IndexOutOfRange)
    );
    assert_eq!(
        calculate_border_points(&a4, &t, 4, 0),
        Err(LayoutError::IndexOutOfRange)
    );
    assert_eq!(
        calculate_border_points(&a4, &t, 0, 3),
        Err(LayoutError::IndexOutOfRange)
    );
}

#[test]
fn uneven_grid_truncates_offsets() {
    let a4 = PageSize::A4();
    let mut t = Table::default(1000);
    t.set_columns(vec![Column { width: 1 }, Column { width: 1 }, Column { width: 1 }]);
    t.set_columns_len(7);
    t.add_row(vec!["a".to_string(), "b".to_string(), "c".to_string()]);
    // inner 1520, grid 7: offsets 1520*k/7 truncated
    let (x1, _) = calculate_cell_coordinates(&a4, &t, 1, 0).unwrap();
    assert_eq!(x1, 80 + 1520 / 7);
    let (x2, _) = calculate_cell_coordinates(&a4, &t, 2, 0).unwrap();
    assert_eq!(x2, 80 + 1520 * 2 / 7);
}
