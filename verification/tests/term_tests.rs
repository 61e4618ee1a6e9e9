use vinilla::Term;

#[test]
fn display_line() {
    let mut term = Term::new(2, 2);
    term.goto(0, 0);
    term.input('h');
    term.goto(0, 1);
    term.input('i');
    term.goto(1, 1);
    term.input('!');

    let mut display = term.renderable_content();
    assert_eq!(display.next().unwrap().cell.c, 'h');
    assert_eq!(display.next().unwrap().cell.c, 'i');
    assert_eq!(display.next().unwrap().cell.c, ' ');
    assert_eq!(display.next().unwrap().cell.c, '!');
}

#[test]
fn input_one_by_one() {
    let mut term = Term::new(2, 2);
    term.goto(0, 0);
    term.input('h');
    term.goto(0, 1);
    term.input('i');
    term.goto(1, 1);
    term.input('!');

    let mut display = term.renderable_content();
    assert_eq!(display.next().unwrap().cell.c, 'h');
    assert_eq!(display.next().unwrap().cell.c, 'i');
    assert_eq!(display.next().unwrap().cell.c, ' ');
    assert_eq!(display.next().unwrap().cell.c, '!');
}

#[test]
fn input_line_by_line() {
    let mut term = Term::new(2, 2);
    term.goto(0, 0);
    term.input('h');
    term.input('i');
    term.goto(1, 1);
    term.input('!');

    let mut display = term.renderable_content();
    assert_eq!(display.next().unwrap().cell.c, 'h');
    assert_eq!(display.next().unwrap().cell.c, 'i');
    assert_eq!(display.next().unwrap().cell.c, ' ');
    assert_eq!(display.next().unwrap().cell.c, '!');
}

#[test]
fn render_yields_exactly_lines_times_columns_in_row_major_order() {
    let term = Term::new(3, 4);
    let cells = term.renderable_cells();
    assert_eq!(cells.len(), 12);
    for (k, item) in cells.iter().enumerate() {
        assert_eq!(item.point.line.0, (k / 4) as i32);
        assert_eq!(item.point.column.0, k % 4);
        assert_eq!(item.cell.c, ' ');
    }
}

#[test]
fn render_twice_without_mutation_is_identical() {
    let mut term = Term::new(2, 3);
    term.input('a');
    term.input('b');
    let first = term.renderable_cells();
    let second = term.renderable_cells();
    assert_eq!(first, second);
}

#[test]
fn new_line_at_bottom_keeps_line_and_resets_column() {
    let mut term = Term::new(2, 2);
    term.goto(1, 1);
    term.new_line();
    let point = term.cursor_point();
    assert_eq!(point.line.0, 1);
    assert_eq!(point.column.0, 0);
}

#[test]
fn new_line_above_bottom_advances_line() {
    let mut term = Term::new(3, 2);
    term.goto(0, 1);
    term.new_line();
    let point = term.cursor_point();
    assert_eq!(point.line.0, 1);
    assert_eq!(point.column.0, 0);
}

#[test]
fn backspace_at_column_zero_mutates_nothing() {
    let mut term = Term::new(2, 2);
    term.input('x');
    term.carriage_return();
    let before = term.renderable_cells();
    term.backspace();
    let after = term.renderable_cells();
    assert_eq!(before, after);
    let point = term.cursor_point();
    assert_eq!(point.line.0, 0);
    assert_eq!(point.column.0, 0);
}

#[test]
fn backspace_erases_the_cell_it_lands_on() {
    let mut term = Term::new(1, 3);
    term.input('a');
    term.input('b');
    term.backspace();
    let point = term.cursor_point();
    assert_eq!(point.column.0, 1);
    let cells = term.renderable_cells();
    assert_eq!(cells[0].cell.c, 'a');
    assert_eq!(cells[1].cell.c, ' ');
}

#[test]
fn move_cursor_right_never_reaches_columns() {
    let mut term = Term::new(2, 2);
    term.move_cursor_right(100);
    assert_eq!(term.cursor_point().column.0, 1);
    term.move_cursor_right(0);
    assert_eq!(term.cursor_point().column.0, 1);
}

#[test]
fn move_cursor_up_never_goes_negative() {
    let mut term = Term::new(2, 2);
    term.goto(1, 0);
    term.move_cursor_up(100);
    assert_eq!(term.cursor_point().line.0, 0);
    term.move_cursor_up(5);
    assert_eq!(term.cursor_point().line.0, 0);
}

#[test]
fn carriage_return_resets_column_only() {
    let mut term = Term::new(2, 3);
    term.goto(1, 2);
    term.carriage_return();
    let point = term.cursor_point();
    assert_eq!(point.line.0, 1);
    assert_eq!(point.column.0, 0);
}

#[test]
fn input_wraps_at_last_column() {
    let mut term = Term::new(2, 2);
    term.goto(0, 1);
    term.input('x');
    let point = term.cursor_point();
    assert_eq!(point.line.0, 1);
    assert_eq!(point.column.0, 0);
}

#[test]
fn input_wrap_at_bottom_right_stays_on_last_line() {
    let mut term = Term::new(2, 2);
    term.goto(1, 1);
    term.input('y');
    let point = term.cursor_point();
    assert_eq!(point.line.0, 1);
    assert_eq!(point.column.0, 0);
    let cells = term.renderable_cells();
    assert_eq!(cells[3].cell.c, 'y');
}

#[test]
fn new_term_is_well_formed_and_blank() {
    let term = Term::new(1, 1);
    assert!(term.well_formed());
    let cells = term.renderable_cells();
    assert_eq!(cells.len(), 1);
    assert_eq!(cells[0].cell.c, ' ');
    assert_eq!(cells[0].point.line.0, 0);
    assert_eq!(cells[0].point.column.0, 0);
}
