mod cell;
mod grid;
mod processor;
mod term;

pub use cell::Cell;
pub use cell::Color;
pub use cell::NamedColor;
pub use cell::Rgb;
pub use cell::INDEXED_CODE_BASE;
pub use grid::Column;
pub use grid::Cursor;
pub use grid::Grid;
pub use grid::GridView;
pub use grid::Indexed;
pub use grid::Line;
pub use grid::Point;
pub use grid::Row;
pub use grid::Storage;
pub use grid::GridIterator;
pub use grid::cells_updated_at;
pub use grid::index_cell;
pub use grid::lemma_render_seq_row_major;
pub use grid::point_lt;
pub use grid::point_at;
pub use grid::render_seq;
pub use grid::spec_init;
pub use processor::Processor;
pub use processor::lemma_csi_right_default;
pub use processor::lemma_execute_matches_direct_calls;
pub use processor::spec_csi;
pub use processor::spec_csi_param_or_one;
pub use processor::spec_execute;
pub use term::Term;
pub use term::lemma_backspace_at_column_zero;
pub use term::lemma_cursor_motion_clamped;
pub use term::lemma_new_line_at_bottom;
pub use term::lemma_render_repeatable;
pub use term::spec_backspace;
pub use term::spec_carriage_return;
pub use term::spec_goto;
pub use term::spec_input;
pub use term::spec_move_cursor_right;
pub use term::spec_move_cursor_up;
pub use term::spec_new_line;
