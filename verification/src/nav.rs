//! Cursor-movement vocabulary shared by every panel.
//!
//! A panel's cursor is an optional index into a bounded item list. A move
//! either lands inside the list (`Moved`) or crosses a boundary (`Underflow`
//! at the top, `Overflow` at the bottom), clearing the selection. Boundary
//! results are what lets navigation spill over from one region of the UI
//! into another without the regions knowing about each other.

use vstd::prelude::*;

verus! {

/// Direction of a cursor move.
#[derive(Clone, Copy, Debug, PartialEq, Eq, Structural)]
pub enum Direction {
    Previous,
    Next,
}

/// Outcome of a cursor move.
#[derive(Clone, Copy, Debug, PartialEq, Eq, Structural)]
pub enum NavigationResult {
    /// The cursor moved and is still inside the item list.
    Moved,
    /// The move crossed the first item; the selection was cleared.
    Underflow,
    /// The move crossed the last item; the selection was cleared.
    Overflow,
}

/// The boundary result belonging to a direction: moving before the first
/// item underflows, moving past the last item overflows.
pub open spec fn boundary_of(dir: Direction) -> NavigationResult {
    match dir {
        Direction::Previous => NavigationResult::Underflow,
        Direction::Next => NavigationResult::Overflow,
    }
}

/// Result of moving a cursor `sel` one step in `dir` through `len` items.
pub open spec fn move_result(sel: Option<usize>, len: nat, dir: Direction) -> NavigationResult {
    match sel {
        None => if len == 0 {
            boundary_of(dir)
        } else {
            NavigationResult::Moved
        },
        Some(i) => match dir {
            Direction::Previous => if i == 0 {
                NavigationResult::Underflow
            } else {
                NavigationResult::Moved
            },
            Direction::Next => if i + 1 >= len {
                NavigationResult::Overflow
            } else {
                NavigationResult::Moved
            },
        },
    }
}

/// Cursor value after moving `sel` one step in `dir` through `len` items:
/// re-entering from an unset cursor selects the last or first item, a
/// boundary crossing clears the selection, anything else steps by one.
pub open spec fn move_target(sel: Option<usize>, len: nat, dir: Direction) -> Option<usize> {
    match sel {
        None => if len == 0 {
            None
        } else {
            match dir {
                Direction::Previous => Some((len - 1) as usize),
                Direction::Next => Some(0usize),
            }
        },
        Some(i) => match dir {
            Direction::Previous => if i == 0 {
                None
            } else {
                Some((i - 1) as usize)
            },
            Direction::Next => if i + 1 >= len {
                None
            } else {
                Some((i + 1) as usize)
            },
        },
    }
}

/// Why an activation produced no action: the cursor is unset, or it points
/// past an item list that shrank since it was set. Both are recoverable;
/// the caller treats them as "no action".
#[derive(Clone, Copy, Debug, PartialEq, Eq, Structural)]
pub enum NavError {
    NoSelection,
    OutOfBounds,
}

/// Selection state of a panel: the optional index of the highlighted item.
#[derive(Clone, Copy, Debug, PartialEq, Eq, Structural)]
pub struct SelectionState {
    pub selected: Option<usize>,
}

/// The selection operations every panel's cursor state offers.
pub trait MenuState {
    fn select(&mut self, index: Option<usize>)
        ensures
            final(self).sel() == index,
    ;

    fn selected(&self) -> (r: Option<usize>)
        ensures
            r == self.sel(),
    ;

    /// Move one step towards the first item through `len` items.
    fn select_previous(&mut self, len: usize) -> (r: NavigationResult)
        ensures
            r == move_result(old(self).sel(), len as nat, Direction::Previous),
            final(self).sel() == move_target(old(self).sel(), len as nat, Direction::Previous),
    ;

    /// Move one step towards the last item through `len` items.
    fn select_next(&mut self, len: usize) -> (r: NavigationResult)
        ensures
            r == move_result(old(self).sel(), len as nat, Direction::Next),
            final(self).sel() == move_target(old(self).sel(), len as nat, Direction::Next),
    ;

    fn select_first(&mut self)
        ensures
            final(self).sel() == Some(0usize),
    ;

    fn select_last(&mut self, len: usize)
        ensures
            len == 0 ==> final(self).sel() is None,
            len > 0 ==> final(self).sel() == Some((len - 1) as usize),
    ;

    spec fn sel(&self) -> Option<usize>;
}

impl SelectionState {
    /// A fresh state with nothing selected.
    pub fn new() -> (r: SelectionState)
        ensures
            r.selected is None,
    {
        SelectionState { selected: None }
    }

    /// The single cursor-move algorithm shared by every panel, so that
    /// boundary-crossing behaves the same across the whole surface.
    pub fn cursor_move(&mut self, len: usize, dir: Direction) -> (r: NavigationResult)
        ensures
            r == move_result(old(self).selected, len as nat, dir),
            final(self).selected == move_target(old(self).selected, len as nat, dir),
            old(self).selected is None && len == 0 ==> r == boundary_of(dir),
    {
        match self.selected {
            None => {
                if len == 0 {
                    match dir {
                        Direction::Previous => NavigationResult::Underflow,
                        Direction::Next => NavigationResult::Overflow,
                    }
                } else {
                    self.selected = match dir {
                        Direction::Previous => Some(len - 1),
                        Direction::Next => Some(0),
                    };
                    NavigationResult::Moved
                }
            },
            Some(i) => match dir {
                Direction::Previous => {
                    if i == 0 {
                        self.selected = None;
                        NavigationResult::Underflow
                    } else {
                        self.selected = Some(i - 1);
                        NavigationResult::Moved
                    }
                },
                Direction::Next => {
                    if i >= usize::MAX - 1 || i + 1 >= len {
                        self.selected = None;
                        NavigationResult::Overflow
                    } else {
                        self.selected = Some(i + 1);
                        NavigationResult::Moved
                    }
                },
            },
        }
    }
}

impl MenuState for SelectionState {
    open spec fn sel(&self) -> Option<usize> {
        self.selected
    }

    fn select(&mut self, index: Option<usize>) {
        self.selected = index;
    }

    fn selected(&self) -> (r: Option<usize>) {
        self.selected
    }

    fn select_previous(&mut self, len: usize) -> (r: NavigationResult) {
        self.cursor_move(len, Direction::Previous)
    }

    fn select_next(&mut self, len: usize) -> (r: NavigationResult) {
        self.cursor_move(len, Direction::Next)
    }

    fn select_first(&mut self) {
        self.selected = Some(0);
    }

    fn select_last(&mut self, len: usize) {
        if len == 0 {
            self.selected = None;
        } else {
            self.selected = Some(len - 1);
        }
    }
}

/// Cursor value after `k` "previous" moves starting from `sel`.
pub open spec fn prev_iter(sel: Option<usize>, len: nat, k: nat) -> Option<usize>
    decreases k,
{
    if k == 0 {
        sel
    } else {
        move_target(prev_iter(sel, len, (k - 1) as nat), len, Direction::Previous)
    }
}

/// From the first of `n` items, a run of `n + 1` "previous" moves crosses
/// the boundary exactly once, at the first move, and every later move
/// stays inside the list: the second move re-enters at the last item and
/// each following one steps back by one.
pub proof fn lemma_prev_from_first(n: nat, k: nat)
    requires
        1 <= n <= usize::MAX,
        1 <= k <= n + 1,
    ensures
        k == 1 ==> move_result(prev_iter(Some(0usize), n, (k - 1) as nat), n, Direction::Previous)
            == NavigationResult::Underflow,
        k == 1 ==> prev_iter(Some(0usize), n, k) is None,
        k >= 2 ==> move_result(prev_iter(Some(0usize), n, (k - 1) as nat), n, Direction::Previous)
            == NavigationResult::Moved,
        k >= 2 ==> prev_iter(Some(0usize), n, k) == Some((n + 1 - k) as usize),
    decreases k,
{
    if k == 1 {
        assert(prev_iter(Some(0usize), n, 0) == Some(0usize));
    } else if k == 2 {
        lemma_prev_from_first(n, 1);
        assert(prev_iter(Some(0usize), n, 1) is None);
    } else {
        lemma_prev_from_first(n, (k - 1) as nat);
        assert(prev_iter(Some(0usize), n, (k - 1) as nat) == Some((n + 2 - k) as usize));
    }
}

} // verus!
