use vinilla::{Cell, Color, Column, Grid, Line, NamedColor, Point, Rgb, Row, Storage};

#[test]
fn default_cell_is_a_blank_space_in_default_colors() {
    let cell = Cell::default();
    assert_eq!(cell.c, ' ');
    assert_eq!(cell.fg, Color::Named(NamedColor::Foreground));
    assert_eq!(cell.bg, Color::Named(NamedColor::Background));
}

#[test]
fn reset_restores_the_blank_cell() {
    let mut cell = Cell { c: 'x', fg: Color::Indexed(4), bg: Color::Spec(Rgb { r: 1, g: 2, b: 3 }) };
    cell.reset();
    assert_eq!(cell, Cell::default());
}

#[test]
fn named_colors_flatten_to_their_own_codes() {
    assert_eq!(Color::Named(NamedColor::Black).to_u16(), 0);
    assert_eq!(Color::Named(NamedColor::White).to_u16(), 7);
    assert_eq!(Color::Named(NamedColor::BrightWhite).to_u16(), 15);
    assert_eq!(Color::Named(NamedColor::Foreground).to_u16(), 256);
    assert_eq!(Color::Named(NamedColor::Background).to_u16(), 257);
    assert_eq!(Color::Named(NamedColor::DimForeground).to_u16(), 268);
}

#[test]
fn indexed_colors_flatten_to_base_plus_index() {
    assert_eq!(Color::Indexed(0).to_u16(), 1);
    assert_eq!(Color::Indexed(41).to_u16(), 42);
    assert_eq!(Color::Indexed(255).to_u16(), 256);
}

#[test]
fn true_colors_flatten_to_the_sentinel_zero() {
    assert_eq!(Color::Spec(Rgb { r: 255, g: 128, b: 0 }).to_u16(), 0);
}

#[test]
fn points_are_ordered_by_line_then_column() {
    let top_right = Point { line: Line(0), column: Column(9) };
    let bottom_left = Point { line: Line(1), column: Column(0) };
    let bottom_right = Point { line: Line(1), column: Column(9) };
    assert!(top_right < bottom_left);
    assert!(bottom_left < bottom_right);
    assert!(bottom_right > top_right);
    assert!(top_right <= top_right);
    assert!(top_right >= top_right);
}

#[test]
fn row_and_storage_allocate_exactly_the_requested_cells() {
    let row = Row::new(3);
    assert_eq!(row.len(), 3);
    assert_eq!(row.cell(Column(2)).c, ' ');
    let storage = Storage::with_capacity(2, 3);
    assert_eq!(storage.len(), 2);
    assert_eq!(storage.row(Line(1)).len(), 3);
}

#[test]
fn grid_exposes_its_last_column_and_cursor_cell() {
    let mut grid = Grid::new(2, 5);
    assert_eq!(grid.last_column(), Column(4));
    let cell = grid.cursor_cell();
    cell.c = 'g';
    let mut it = grid.display_iter();
    let first = it.next().unwrap();
    assert_eq!(first.point, Point { line: Line(0), column: Column(0) });
    assert_eq!(first.cell.c, 'g');
    assert_eq!(it.point(), Point { line: Line(0), column: Column(0) });
    assert_eq!(it.cell().c, 'g');
}

#[test]
fn display_iter_covers_a_single_cell_grid_exactly_once() {
    let grid = Grid::new(1, 1);
    let mut it = grid.display_iter();
    let first = it.next().unwrap();
    assert_eq!(first.point, Point { line: Line(0), column: Column(0) });
    assert!(it.next().is_none());
    assert!(it.next().is_none());
}
