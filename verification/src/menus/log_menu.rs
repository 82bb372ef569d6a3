//! A scrollable view of the most recent log lines.
//!
//! Reading the log file happens outside the library; the menu holds the
//! snapshot of lines it was given.

use crate::nav::MenuState;
use crate::nav::SelectionState;
use vstd::prelude::*;

verus! {

/// A copy of a line buffer, for a panel to own.
pub fn clone_lines(src: &Vec<String>) -> (r: Vec<String>)
    ensures
        r@ == src@,
{
    let r = src.clone();
    proof {
        assert forall|i: int| 0 <= i < r@.len() implies r@[i] == src@[i] by {
            assert(cloned::<String>(src@[i], r@[i]));
        }
        assert(r@ =~= src@);
    }
    r
}

/// A list of log lines; it opens with the first line selected.
#[derive(Debug)]
pub struct LogMenu {
    pub state: SelectionState,
    pub lines: Vec<String>,
}

impl LogMenu {
    pub fn new(lines: Vec<String>) -> (r: LogMenu)
        ensures
            r.state.selected == Some(0usize),
            r.lines == lines,
    {
        let mut state = SelectionState::new();
        state.select_first();
        LogMenu { state, lines }
    }

    pub fn get_len(&self) -> (r: usize)
        ensures
            r == self.lines@.len(),
    {
        self.lines.len()
    }

    /// The breadcrumb name of this panel.
    pub fn label(&self) -> (r: String)
        ensures
            r@ == "log"@,
    {
        String::from_str("log")
    }
}

} // verus!
