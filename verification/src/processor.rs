//! The dispatcher: the one component that translates decoded terminal
//! actions — printable characters, control bytes, CSI sequences and the
//! reserved action kinds — into terminal mutations. The dispatch is total:
//! every action has defined behavior, and an unsupported action leaves the
//! terminal untouched so the stream keeps going.

use vstd::prelude::*;

use crate::grid::GridView;
use crate::term::{
    spec_backspace, spec_carriage_return, spec_input, spec_move_cursor_right, spec_move_cursor_up,
    spec_new_line, Term,
};

verus! {

/// The leading CSI parameter with the CSI convention applied: a parameter
/// that is absent or explicitly zero resolves to the default, which is 1
/// for every command in this scope.
pub open spec fn spec_csi_param_or_one(params: Seq<u16>) -> int {
    if params.len() == 0 || params[0] == 0 {
        1
    } else {
        params[0] as int
    }
}

/// What a control byte does to the terminal: line feed, carriage return
/// and backspace act; every other control byte is an unsupported action
/// and leaves the state untouched.
pub open spec fn spec_execute(v: GridView, byte: u8) -> GridView {
    if byte == 0x0a {
        spec_new_line(v)
    } else if byte == 0x0d {
        spec_carriage_return(v)
    } else if byte == 0x08 {
        spec_backspace(v)
    } else {
        v
    }
}

/// What a CSI sequence does to the terminal: `'C'` moves the cursor right
/// and `'A'` moves it up, both by the leading parameter after defaulting;
/// every other final character is an unsupported action and leaves the
/// state untouched.
pub open spec fn spec_csi(v: GridView, params: Seq<u16>, action: char) -> GridView {
    if action == 'C' {
        spec_move_cursor_right(v, spec_csi_param_or_one(params))
    } else if action == 'A' {
        spec_move_cursor_up(v, spec_csi_param_or_one(params))
    } else {
        v
    }
}

/// The dispatcher. It owns the terminal outright: the tokenizer drives
/// decoded actions through it, one at a time, and the host reads the
/// terminal back through it.
pub struct Processor {
    pub term: Term,
}

impl Processor {
    /// Takes exclusive ownership of the terminal to dispatch into.
    pub fn new(term: Term) -> (processor: Processor)
        ensures
            processor.term == term,
    {
        Processor { term }
    }

    /// A printable character: written at the cursor.
    pub fn print(&mut self, c: char)
        requires
            old(self).term@.wf(),
        ensures
            final(self).term@ == spec_input(old(self).term@, c),
            final(self).term@.wf(),
    {
        self.term.input(c);
    }

    /// A C0 control byte.
    pub fn execute(&mut self, byte: u8)
        requires
            old(self).term@.wf(),
        ensures
            final(self).term@ == spec_execute(old(self).term@, byte),
            final(self).term@.wf(),
    {
        match byte {
            0x0a => {
                self.term.new_line();
            },
            0x0d => {
                self.term.carriage_return();
            },
            0x08 => {
                self.term.backspace();
            },
            _ => {},
        }
    }

    /// A CSI control sequence: the ordered leading parameters, the
    /// intermediate bytes, the flag marking an over-long sequence, and the
    /// final character naming the command.
    pub fn csi_dispatch(
        &mut self,
        params: &[u16],
        intermediates: &[u8],
        ignored: bool,
        action: char,
    )
        requires
            old(self).term@.wf(),
        ensures
            final(self).term@ == spec_csi(old(self).term@, params@, action),
            final(self).term@.wf(),
    {
        let n: u16 = if params.len() > 0 && params[0] != 0 {
            params[0]
        } else {
            1
        };
        match action {
            'C' => {
                // Move cursor to the right.
                self.term.move_cursor_right(n as usize);
            },
            'A' => {
                // Move cursor up.
                self.term.move_cursor_up(n as usize);
            },
            _ => {},
        }
    }

    /// An escape sequence: a reserved extension point, an unsupported
    /// action for now.
    pub fn esc_dispatch(&mut self, intermediates: &[u8], ignored: bool, byte: u8)
        ensures
            *final(self) == *old(self),
    {
    }

    /// An operating-system-command string: a reserved extension point, an
    /// unsupported action for now.
    pub fn osc_dispatch(&mut self, params: &[&[u8]], bell_terminated: bool)
        ensures
            *final(self) == *old(self),
    {
    }

    /// The opening of a device-control string: a reserved extension point,
    /// an unsupported action for now.
    pub fn hook(&mut self, params: &[u16], intermediates: &[u8], ignored: bool, action: char)
        ensures
            *final(self) == *old(self),
    {
    }

    /// A byte of a device-control string: written like a printable
    /// character.
    pub fn put(&mut self, byte: u8)
        requires
            old(self).term@.wf(),
        ensures
            final(self).term@ == spec_input(old(self).term@, byte as char),
            final(self).term@.wf(),
    {
        self.print(byte as char);
    }

    /// The end of a device-control string: a reserved extension point, an
    /// unsupported action for now.
    pub fn unhook(&mut self)
        ensures
            *final(self) == *old(self),
    {
    }
}

/// CSI `'C'` with no parameter and CSI `'C'` with an explicit zero both
/// behave exactly like moving the cursor right by one.
pub proof fn lemma_csi_right_default(v: GridView, empty: Seq<u16>, zero: Seq<u16>)
    requires
        empty.len() == 0,
        zero.len() > 0,
        zero[0] == 0,
    ensures
        spec_csi(v, empty, 'C') == spec_move_cursor_right(v, 1),
        spec_csi(v, zero, 'C') == spec_move_cursor_right(v, 1),
{
}

/// Dispatched actions do exactly what the direct terminal calls do: the
/// line-feed, carriage-return and backspace control bytes act as the
/// corresponding operations, and any other control byte leaves the state
/// unchanged.
pub proof fn lemma_execute_matches_direct_calls(v: GridView)
    ensures
        spec_execute(v, 0x0a) == spec_new_line(v),
        spec_execute(v, 0x0d) == spec_carriage_return(v),
        spec_execute(v, 0x08) == spec_backspace(v),
        forall|byte: u8|
            byte != 0x0a && byte != 0x0d && byte != 0x08 ==> spec_execute(v, byte) == v,
{
}

} // verus!
