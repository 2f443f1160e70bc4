use table_layout::grid::{Column, Table};

fn row4(a: &str, b: &str, c: &str, d: &str) -> Vec<String> {
    vec![a.to_string(), b.to_string(), c.to_string(), d.to_string()]
}

#[test]
fn default_table_shape() {
    let t = Table::default(1000);
    assert_eq!(t.rows.len(), 0);
    assert_eq!(t.columns.len(), 4);
    assert_eq!(t.columns[0].width, 6);
    assert_eq!(t.columns[1].width, 2);
    assert_eq!(t.columns[2].width, 2);
    assert_eq!(t.columns[3].width, 2);
    assert_eq!(t.position_y, 1000);
    assert_eq!(t.max_columns, 12);
    assert!(!t.borders);
    assert_eq!(t.row_height, 60);
    assert!(t.is_well_formed());
}

#[test]
fn default_column_weight() {
    let c = Column::default();
    assert_eq!(c.width, 1);
}

#[test]
fn setters_update_fields() {
    let mut t = Table::default(500);
    t.set_borders(true);
    assert!(t.borders);
    t.set_row_height(40);
    assert_eq!(t.row_height, 40);
    t.set_columns_len(8);
    assert_eq!(t.max_columns, 8);
    t.set_columns(vec![Column { width: 4 }, Column { width: 4 }]);
    assert_eq!(t.columns.len(), 2);
    t.add_row(vec!["a".to_string(), "b".to_string()]);
    assert_eq!(t.rows.len(), 1);
    assert_eq!(t.rows[0][1], "b");
    assert!(t.is_well_formed());
}

#[test]
fn validation_rejects_overweight_columns() {
    let mut t = Table::default(500);
    // 6 + 2 + 2 + 2 = 12 fits a 12 unit grid; an 11 unit grid is too small
    t.set_columns_len(11);
    assert!(!t.is_well_formed());
    t.set_columns_len(12);
    assert!(t.is_well_formed());
}

#[test]
fn validation_rejects_ragged_rows() {
    let mut t = Table::default(500);
    t.add_row(row4("h1", "h2", "h3", "h4"));
    assert!(t.is_well_formed());
    t.add_row(vec!["only".to_string(), "three".to_string(), "cells".to_string()]);
    assert!(!t.is_well_formed());
}

#[test]
fn validation_rejects_zero_weight_and_empty_columns() {
    let mut t = Table::default(500);
    t.set_columns(vec![Column { width: 0 }]);
    assert!(!t.is_well_formed());
    t.set_columns(Vec::new());
    assert!(!t.is_well_formed());
    t.set_columns(vec![Column { width: 12 }]);
    assert!(t.is_well_formed());
}

#[test]
fn validation_rejects_nonpositive_row_height() {
    let mut t = Table::default(500);
    t.set_row_height(0);
    assert!(!t.is_well_formed());
    t.set_row_height(-5);
    assert!(!t.is_well_formed());
    t.set_row_height(60);
    assert!(t.is_well_formed());
}

#[test]
fn break_margin_alignment_flag() {
    let mut t = Table::default(500);
    assert!(t.row_height_matches_break_margin());
    t.set_row_height(40);
    assert!(!t.row_height_matches_break_margin());
}
