use vinilla::{Processor, Term};

#[test]
fn print_writes_like_direct_input() {
    let mut processor = Processor::new(Term::new(2, 2));
    processor.print('h');
    let cells = processor.term.renderable_cells();
    assert_eq!(cells[0].cell.c, 'h');
    assert_eq!(processor.term.cursor_point().column.0, 1);
}

#[test]
fn execute_line_feed_carriage_return_and_backspace() {
    let mut processor = Processor::new(Term::new(3, 3));
    processor.print('a');
    processor.print('b');
    processor.execute(0x0d);
    assert_eq!(processor.term.cursor_point().column.0, 0);
    processor.execute(0x0a);
    assert_eq!(processor.term.cursor_point().line.0, 1);
    processor.print('c');
    processor.execute(0x08);
    assert_eq!(processor.term.cursor_point().column.0, 0);
    let cells = processor.term.renderable_cells();
    assert_eq!(cells[0].cell.c, 'a');
    assert_eq!(cells[1].cell.c, 'b');
    assert_eq!(cells[3].cell.c, ' ');
}

#[test]
fn execute_unknown_control_byte_is_a_no_op() {
    let mut processor = Processor::new(Term::new(2, 2));
    processor.print('a');
    let before = processor.term.renderable_cells();
    let point_before = processor.term.cursor_point();
    processor.execute(0x07);
    assert_eq!(before, processor.term.renderable_cells());
    assert_eq!(point_before, processor.term.cursor_point());
}

#[test]
fn csi_c_without_parameter_equals_move_right_by_one() {
    let mut with_none = Processor::new(Term::new(2, 4));
    let mut with_zero = Processor::new(Term::new(2, 4));
    let mut direct = Term::new(2, 4);

    with_none.csi_dispatch(&[], &[], false, 'C');
    with_zero.csi_dispatch(&[0], &[], false, 'C');
    direct.move_cursor_right(1);

    assert_eq!(with_none.term.cursor_point(), direct.cursor_point());
    assert_eq!(with_zero.term.cursor_point(), direct.cursor_point());
    assert_eq!(with_none.term.renderable_cells(), direct.renderable_cells());
    assert_eq!(with_zero.term.renderable_cells(), direct.renderable_cells());
}

#[test]
fn csi_a_without_parameter_equals_move_up_by_one() {
    let mut processor = Processor::new(Term::new(3, 2));
    processor.term.goto(2, 0);
    processor.csi_dispatch(&[], &[], false, 'A');
    assert_eq!(processor.term.cursor_point().line.0, 1);
    processor.csi_dispatch(&[0], &[], false, 'A');
    assert_eq!(processor.term.cursor_point().line.0, 0);
}

#[test]
fn csi_with_explicit_parameter_moves_by_it() {
    let mut processor = Processor::new(Term::new(4, 8));
    processor.csi_dispatch(&[3], &[], false, 'C');
    assert_eq!(processor.term.cursor_point().column.0, 3);
    processor.term.goto(3, 0);
    processor.csi_dispatch(&[2], &[], false, 'A');
    assert_eq!(processor.term.cursor_point().line.0, 1);
}

#[test]
fn csi_parameter_clamps_at_the_edge() {
    let mut processor = Processor::new(Term::new(2, 3));
    processor.csi_dispatch(&[999], &[], false, 'C');
    assert_eq!(processor.term.cursor_point().column.0, 2);
    processor.csi_dispatch(&[999], &[], false, 'A');
    assert_eq!(processor.term.cursor_point().line.0, 0);
}

#[test]
fn csi_unknown_final_character_is_a_no_op() {
    let mut processor = Processor::new(Term::new(2, 2));
    processor.print('a');
    let before = processor.term.renderable_cells();
    let point_before = processor.term.cursor_point();
    processor.csi_dispatch(&[5], &[], false, 'Z');
    assert_eq!(before, processor.term.renderable_cells());
    assert_eq!(point_before, processor.term.cursor_point());
}

#[test]
fn reserved_handlers_leave_the_terminal_untouched() {
    let mut processor = Processor::new(Term::new(2, 2));
    processor.print('a');
    let before = processor.term.renderable_cells();
    let point_before = processor.term.cursor_point();
    processor.esc_dispatch(&[], false, 0x42);
    processor.osc_dispatch(&[], false);
    processor.hook(&[1], &[], false, 'q');
    processor.unhook();
    assert_eq!(before, processor.term.renderable_cells());
    assert_eq!(point_before, processor.term.cursor_point());
}

#[test]
fn put_writes_the_byte_as_a_character() {
    let mut processor = Processor::new(Term::new(1, 2));
    processor.put(0x41);
    let cells = processor.term.renderable_cells();
    assert_eq!(cells[0].cell.c, 'A');
}

#[test]
fn byte_stream_actions_match_direct_calls() {
    // The decoded actions for the bytes of "Hi\r\n!".
    let mut processor = Processor::new(Term::new(2, 2));
    processor.print('H');
    processor.print('i');
    processor.execute(0x0d);
    processor.execute(0x0a);
    processor.print('!');

    let mut direct = Term::new(2, 2);
    direct.input('H');
    direct.input('i');
    direct.carriage_return();
    direct.new_line();
    direct.input('!');

    assert_eq!(processor.term.renderable_cells(), direct.renderable_cells());
    assert_eq!(processor.term.cursor_point(), direct.cursor_point());

    let chars: Vec<char> = processor.term.renderable_cells().iter().map(|i| i.cell.c).collect();
    assert_eq!(chars, vec!['H', 'i', '!', ' ']);
}
